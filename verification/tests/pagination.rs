use intercom_client::json::JsonValue;
use intercom_client::pagination::{absorb_page, aggregate_pages};
use intercom_client::util::{ListResponse, NextObject, Pages};

fn page(
    total_count: usize,
    pageno: usize,
    total_pages: usize,
    next: Option<(i64, &str)>,
    data: Vec<&str>,
) -> ListResponse<String> {
    ListResponse {
        total_count,
        pages: Pages {
            page: pageno,
            per_page: 2,
            total_pages,
            next: next.map(|(p, tok)| NextObject { page: p, starting_after: tok.to_string() }),
        },
        data: data.into_iter().map(|s| s.to_string()).collect(),
        extra: Vec::new(),
    }
}

#[test]
fn three_page_scenario() {
    let mut pages = vec![
        page(5, 1, 3, Some((2, "abc")), vec!["A", "B"]),
        page(5, 2, 3, Some((3, "def")), vec!["C", "D"]),
        page(5, 3, 3, None, vec!["E"]),
    ];
    let (agg, requests) = aggregate_pages(&mut pages).expect("terminal page present");
    assert_eq!(requests, 3);
    assert_eq!(agg.data, vec!["A", "B", "C", "D", "E"]);
    assert_eq!(agg.total_count, 5);
    assert_eq!(agg.pages.page, 3);
    assert!(agg.pages.next.is_none());
    assert!(pages.is_empty());
}

#[test]
fn aggregation_counts_every_page() {
    let mut pages = vec![
        page(4, 1, 2, Some((2, "t1")), vec!["a", "b", "c"]),
        page(4, 2, 2, None, vec!["d"]),
    ];
    let (agg, requests) = aggregate_pages(&mut pages).unwrap();
    assert_eq!(requests, 2);
    assert_eq!(agg.data.len(), 3 + 1);
    assert_eq!(agg.data, vec!["a", "b", "c", "d"]);
}

#[test]
fn termination_at_first_terminal_page() {
    // The first page with no `next` stops the loop; later pages are
    // never requested.
    let mut pages = vec![
        page(9, 1, 5, Some((2, "t")), vec!["x"]),
        page(9, 2, 5, None, vec!["y"]),
        page(9, 3, 5, None, vec!["never fetched"]),
    ];
    let (agg, requests) = aggregate_pages(&mut pages).unwrap();
    assert_eq!(requests, 2);
    assert_eq!(agg.data, vec!["x", "y"]);
    assert_eq!(pages.len(), 1);
}

#[test]
fn single_page_idempotence() {
    let mut pages = vec![page(2, 1, 1, None, vec!["A", "B"])];
    let direct = page(2, 1, 1, None, vec!["A", "B"]);
    let (agg, requests) = aggregate_pages(&mut pages).unwrap();
    assert_eq!(requests, 1);
    assert_eq!(agg.data, direct.data);
    assert_eq!(agg.total_count, direct.total_count);
    assert_eq!(agg.pages.page, direct.pages.page);
    assert!(agg.pages.next.is_none());
}

#[test]
fn zero_items_total() {
    let mut pages = vec![page(0, 1, 1, None, vec![])];
    let (agg, requests) = aggregate_pages(&mut pages).unwrap();
    assert_eq!(requests, 1);
    assert!(agg.data.is_empty());
    assert_eq!(agg.total_count, 0);
}

#[test]
fn run_without_terminal_page_is_unfinished() {
    let mut pages = vec![
        page(8, 1, 4, Some((2, "t1")), vec!["a"]),
        page(8, 2, 4, Some((3, "t2")), vec!["b"]),
    ];
    assert!(aggregate_pages(&mut pages).is_none());
    let mut empty: Vec<ListResponse<String>> = Vec::new();
    assert!(aggregate_pages(&mut empty).is_none());
}

#[test]
fn absorb_page_returns_token_and_keeps_metadata() {
    let mut acc: ListResponse<String> = ListResponse::default();
    let token = absorb_page(&mut acc, page(5, 1, 3, Some((2, "abc")), vec!["A", "B"]));
    assert_eq!(token.as_deref(), Some("abc"));
    assert_eq!(acc.data, vec!["A", "B"]);
    // A non-terminal page leaves the accumulator's metadata alone.
    assert_eq!(acc.total_count, 0);
    assert!(acc.pages.next.is_none());
}

#[test]
fn absorb_terminal_page_takes_over_metadata() {
    let mut acc: ListResponse<String> = ListResponse::default();
    assert_eq!(absorb_page(&mut acc, page(5, 1, 3, Some((2, "abc")), vec!["A"])), Some("abc".to_string()));
    let mut terminal = page(5, 3, 3, None, vec!["B"]);
    terminal.extra.push(("server_hint".to_string(), JsonValue::Str("kept".to_string())));
    assert_eq!(absorb_page(&mut acc, terminal), None);
    assert_eq!(acc.data, vec!["A", "B"]);
    assert_eq!(acc.total_count, 5);
    assert_eq!(acc.pages.page, 3);
    assert_eq!(
        acc.extra,
        vec![("server_hint".to_string(), JsonValue::Str("kept".to_string()))]
    );
}
