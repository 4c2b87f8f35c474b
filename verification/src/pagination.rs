//! The pagination engine.
//!
//! A list endpoint answers one page at a time; each page's cursor
//! either carries a `next` pointer (more pages remain) or does not
//! (this page is terminal). The engine accumulates every page's items
//! in page order and, on the terminal page, takes over that page's
//! count, cursor and passthrough fields.
//!
//! The network round trip itself is the embedding application's: it
//! fetches one envelope at a time and feeds each into [`absorb_page`],
//! forwarding the returned token until none comes back. Everything the
//! loop decides — what to accumulate, when to stop, which token to
//! send next — is here, with its contract.

use vstd::prelude::*;
use crate::util::ListResponse;

verus! {

/// A page is terminal iff its cursor has no `next` pointer. This is
/// the sole termination signal of the fetch loop.
pub open spec fn is_terminal<T>(page: ListResponse<T>) -> bool {
    page.pages.next is None
}

/// The items of a run of pages, concatenated in page order.
pub open spec fn concat_data<T>(pages: Seq<ListResponse<T>>) -> Seq<T>
    decreases pages.len(),
{
    if pages.len() == 0 {
        Seq::empty()
    } else {
        pages[0].data@ + concat_data(pages.drop_first())
    }
}

/// The total number of items over a run of pages.
pub open spec fn total_items<T>(pages: Seq<ListResponse<T>>) -> int
    decreases pages.len(),
{
    if pages.len() == 0 {
        0
    } else {
        pages[0].data@.len() + total_items(pages.drop_first())
    }
}

/// Whether some page of the run is terminal.
pub open spec fn has_terminal<T>(pages: Seq<ListResponse<T>>) -> bool {
    exists|i: int| 0 <= i < pages.len() && is_terminal(pages[i])
}

/// The index of the first terminal page of the run.
pub open spec fn first_terminal<T>(pages: Seq<ListResponse<T>>) -> int
    decreases pages.len(),
{
    if pages.len() == 0 {
        0
    } else if is_terminal(pages[0]) {
        0
    } else {
        1 + first_terminal(pages.drop_first())
    }
}

/// `first_terminal` indeed points at the first terminal page: when one
/// exists it is in range, terminal, and nothing before it is.
pub proof fn lemma_first_terminal<T>(pages: Seq<ListResponse<T>>)
    requires
        has_terminal(pages),
    ensures
        0 <= first_terminal(pages) < pages.len(),
        is_terminal(pages[first_terminal(pages)]),
        forall|j: int| 0 <= j < first_terminal(pages) ==> !is_terminal(pages[j]),
    decreases pages.len(),
{
    if pages.len() > 0 && !is_terminal(pages[0]) {
        let rest = pages.drop_first();
        assert(has_terminal(rest)) by {
            let i = choose|i: int| 0 <= i < pages.len() && is_terminal(pages[i]);
            assert(rest[i - 1] == pages[i]);
        }
        lemma_first_terminal(rest);
        assert forall|j: int| 0 <= j < first_terminal(pages) implies !is_terminal(pages[j]) by {
            if j > 0 {
                assert(pages[j] == rest[j - 1]);
            }
        }
    }
}

/// A run whose pages are all non-terminal up to a terminal page at
/// index `k` has its first terminal page exactly there.
pub proof fn lemma_first_terminal_at<T>(pages: Seq<ListResponse<T>>, k: int)
    requires
        0 <= k < pages.len(),
        is_terminal(pages[k]),
        forall|j: int| 0 <= j < k ==> !is_terminal(pages[j]),
    ensures
        has_terminal(pages),
        first_terminal(pages) == k,
    decreases pages.len(),
{
    if k > 0 {
        let rest = pages.drop_first();
        assert forall|j: int| 0 <= j < k - 1 implies !is_terminal(rest[j]) by {
            assert(rest[j] == pages[j + 1]);
        }
        assert(rest[k - 1] == pages[k]);
        lemma_first_terminal_at(rest, k - 1);
    }
}

/// Extending a run by one page appends that page's items to the
/// concatenation, and its item count to the total.
pub proof fn lemma_concat_push<T>(pages: Seq<ListResponse<T>>, page: ListResponse<T>)
    ensures
        concat_data(pages.push(page)) == concat_data(pages) + page.data@,
        total_items(pages.push(page)) == total_items(pages) + page.data@.len(),
    decreases pages.len(),
{
    let p = pages.push(page);
    if pages.len() == 0 {
        assert(p[0] == page);
        assert(p.drop_first() =~= Seq::<ListResponse<T>>::empty());
        assert(concat_data(p.drop_first()) =~= Seq::<T>::empty());
        assert(concat_data(pages) =~= Seq::<T>::empty());
        assert(concat_data(p) =~= concat_data(pages) + page.data@);
        assert(total_items(p.drop_first()) == 0);
        assert(total_items(pages) == 0);
    } else {
        assert(p[0] == pages[0]);
        assert(p.drop_first() =~= pages.drop_first().push(page));
        lemma_concat_push(pages.drop_first(), page);
        assert(concat_data(p) =~= concat_data(pages) + page.data@);
    }
}

/// One step of the fetch loop: append `page`'s items to the
/// accumulator, in order, after everything already accumulated.
///
/// When the page's cursor carries a `next` pointer, its token is
/// returned — the caller sends it back verbatim as `starting_after` —
/// and the accumulator's metadata is left alone. When the page is
/// terminal, its `total_count`, cursor and passthrough fields are
/// copied into the accumulator and no token is returned: the loop is
/// over.
pub fn absorb_page<T>(acc: &mut ListResponse<T>, page: ListResponse<T>) -> (next: Option<String>)
    ensures
        final(acc).data@ == old(acc).data@ + page.data@,
        is_terminal(page) ==> {
            &&& next is None
            &&& final(acc).total_count == page.total_count
            &&& final(acc).pages == page.pages
            &&& final(acc).extra == page.extra
        },
        !is_terminal(page) ==> {
            &&& next == Some(page.pages.next->0.starting_after)
            &&& final(acc).total_count == old(acc).total_count
            &&& final(acc).pages == old(acc).pages
            &&& final(acc).extra == old(acc).extra
        },
{
    let mut page = page;
    acc.data.append(&mut page.data);
    match page.pages.next {
        Some(next) => Some(next.starting_after),
        None => {
            acc.pages = page.pages;
            acc.total_count = page.total_count;
            acc.extra = page.extra;
            None
        },
    }
}

/// Replays the whole fetch loop against a recorded run of page
/// envelopes, one request per page, in order, consuming each page it
/// fetches.
///
/// Returns the aggregated envelope together with the number of
/// requests the loop made: exactly one per page up to and including
/// the first terminal one; pages after the first terminal one are not
/// requested and stay in `pages`. The aggregate holds every fetched
/// page's items concatenated in page order, and the terminal page's
/// count, cursor and passthrough fields. A run with no terminal page
/// returns `None`: against a live endpoint the loop would have kept
/// asking for more pages.
pub fn aggregate_pages<T>(pages: &mut Vec<ListResponse<T>>) -> (r: Option<(ListResponse<T>, usize)>)
    ensures
        match r {
            Some(agg) => {
                &&& has_terminal(old(pages)@)
                &&& agg.1 == first_terminal(old(pages)@) + 1
                &&& agg.0.data@ == concat_data(old(pages)@.take(agg.1 as int))
                &&& agg.0.total_count == old(pages)@[agg.1 - 1].total_count
                &&& agg.0.pages == old(pages)@[agg.1 - 1].pages
                &&& agg.0.extra == old(pages)@[agg.1 - 1].extra
                &&& final(pages)@ == old(pages)@.skip(agg.1 as int)
            },
            None => !has_terminal(old(pages)@) && final(pages)@.len() == 0,
        },
{
    let ghost run = pages@;
    proof {
        vstd::std_specs::vec::axiom_spec_len(pages);
    }
    let mut acc = ListResponse::<T>::default();
    let mut made: usize = 0;
    while pages.len() > 0
        invariant
            run == old(pages)@,
            run.len() <= usize::MAX,
            made + pages@.len() == run.len(),
            pages@ =~= run.subrange(made as int, run.len() as int),
            forall|j: int| 0 <= j < made ==> !is_terminal(run[j]),
            acc.data@ == concat_data(run.take(made as int)),
        decreases pages@.len(),
    {
        let page = pages.remove(0);
        proof {
            assert(page == run[made as int]);
            assert(pages@ =~= run.subrange(made + 1, run.len() as int));
            assert(run.take(made + 1) =~= run.take(made as int).push(page));
            lemma_concat_push(run.take(made as int), page);
        }
        let next = absorb_page(&mut acc, page);
        made = made + 1;
        if next.is_none() {
            proof {
                lemma_first_terminal_at(run, made - 1);
                assert(pages@ =~= run.skip(made as int));
            }
            return Some((acc, made));
        }
    }
    proof {
        assert(run.take(run.len() as int) =~= run);
        if has_terminal(run) {
            let i = choose|i: int| 0 <= i < run.len() && is_terminal(run[i]);
            assert(!is_terminal(run[i]));
        }
    }
    None
}

/// Aggregation completeness: over a run that ends at its first
/// terminal page, the concatenation holds exactly the sum of the page
/// sizes, and the item at offset `j` within page `i`'s block is page
/// `i`'s item `j` — the pages' items in page order, none lost, none
/// reordered.
pub proof fn lemma_aggregation_completeness<T>(pages: Seq<ListResponse<T>>, i: int, j: int)
    requires
        0 <= i < pages.len(),
        0 <= j < pages[i].data@.len(),
    ensures
        concat_data(pages).len() == total_items(pages),
        concat_data(pages)[total_items(pages.take(i)) + j] == pages[i].data@[j],
        total_items(pages.take(i)) + j < total_items(pages),
    decreases pages.len(),
{
    lemma_concat_len(pages);
    if i == 0 {
        assert(pages.take(0) =~= Seq::<ListResponse<T>>::empty());
        lemma_concat_len(pages.drop_first());
    } else {
        let rest = pages.drop_first();
        assert(rest[i - 1] == pages[i]);
        lemma_aggregation_completeness(rest, i - 1, j);
        assert(pages.take(i).drop_first() =~= rest.take(i - 1));
        lemma_concat_len(pages.take(i));
    }
}

/// The concatenation of a run holds as many items as its pages do
/// together.
pub proof fn lemma_concat_len<T>(pages: Seq<ListResponse<T>>)
    ensures
        concat_data(pages).len() == total_items(pages),
        total_items(pages) >= 0,
    decreases pages.len(),
{
    if pages.len() > 0 {
        lemma_concat_len(pages.drop_first());
    }
}

/// Single-page idempotence: when the first page is already terminal,
/// the loop makes exactly one request and the aggregate is that page
/// itself — the same items, count, cursor and passthrough fields a
/// direct single-page fetch returns.
pub proof fn lemma_single_page_idempotence<T>(pages: Seq<ListResponse<T>>)
    requires
        pages.len() >= 1,
        is_terminal(pages[0]),
    ensures
        has_terminal(pages),
        first_terminal(pages) == 0,
        concat_data(pages.take(1)) == pages[0].data@,
{
    lemma_first_terminal_at(pages, 0);
    let t = pages.take(1);
    assert(t[0] == pages[0]);
    assert(t.drop_first() =~= Seq::<ListResponse<T>>::empty());
    assert(concat_data(t.drop_first()) =~= Seq::<T>::empty());
    assert(concat_data(t) =~= pages[0].data@);
}

} // verus!
