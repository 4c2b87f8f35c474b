//! The generic paged-response wrapper and its pagination metadata.

use vstd::prelude::*;
use crate::json::JsonValue;

verus! {

/// The pointer to the next page of a list endpoint: the page number it
/// announces and the opaque token that is passed back verbatim as the
/// `starting_after` query parameter. The token has no meaning to this
/// client beyond being forwarded.
#[derive(Debug)]
pub struct NextObject {
    pub page: i64,
    pub starting_after: String,
}

/// The pagination cursor embedded in a list response. `next` is present
/// iff more pages remain; its absence is the sole termination signal of
/// the fetch loop — `page` and `total_pages` are informational only.
#[derive(Debug)]
pub struct Pages {
    pub page: usize,
    pub per_page: usize,
    pub total_pages: usize,
    pub next: Option<NextObject>,
}

impl Default for Pages {
    fn default() -> (res: Self)
        ensures
            res.page == 0,
            res.per_page == 0,
            res.total_pages == 0,
            res.next is None,
    {
        Pages { page: 0, per_page: 0, total_pages: 0, next: None }
    }
}

/// One tag attached to a resource.
#[derive(Debug)]
pub struct TagData {
    pub tag_type: String,
    pub id: String,
    pub url: String,
}

impl Default for TagData {
    fn default() -> (res: Self)
        ensures
            res.tag_type@.len() == 0,
            res.id@.len() == 0,
            res.url@.len() == 0,
    {
        TagData { tag_type: String::new(), id: String::new(), url: String::new() }
    }
}

/// The collection of tags attached to a resource.
#[derive(Debug)]
pub struct Tags {
    pub data: Vec<TagData>,
    pub url: String,
    pub total_count: i64,
    pub has_more: bool,
}

impl Default for Tags {
    fn default() -> (res: Self)
        ensures
            res.data@.len() == 0,
            res.url@.len() == 0,
            res.total_count == 0,
            res.has_more == false,
    {
        Tags { data: Vec::new(), url: String::new(), total_count: 0, has_more: false }
    }
}

/// The generic wrapper returned by a list endpoint: the server's total
/// count, the pagination cursor, this page's items, and a passthrough
/// of top-level response fields that are not modeled here.
///
/// `data.len()` is the number of items in *this* page; it equals
/// `total_count` only after full aggregation.
#[derive(Debug)]
pub struct ListResponse<T> {
    pub total_count: usize,
    pub pages: Pages,
    pub data: Vec<T>,
    pub extra: Vec<(String, JsonValue)>,
}

impl<T> Default for ListResponse<T> {
    /// The empty envelope that seeds the pagination engine's accumulator.
    fn default() -> (res: Self)
        ensures
            res.total_count == 0,
            res.pages.page == 0,
            res.pages.per_page == 0,
            res.pages.total_pages == 0,
            res.pages.next is None,
            res.data@.len() == 0,
            res.extra@.len() == 0,
    {
        ListResponse {
            total_count: 0,
            pages: Pages::default(),
            data: Vec::new(),
            extra: Vec::new(),
        }
    }
}

/// A record with no modeled fields at all: everything the server sent
/// is carried in the passthrough map.
#[derive(Debug)]
pub struct CatchAll {
    extra: Vec<(String, JsonValue)>,
}

impl CatchAll {
    /// The raw fields, as the contracts see them.
    pub closed spec fn spec_fields(&self) -> Seq<(String, JsonValue)> {
        self.extra@
    }

    /// Wraps a set of raw fields.
    pub fn new(extra: Vec<(String, JsonValue)>) -> (res: Self)
        ensures
            res.spec_fields() == extra@,
    {
        CatchAll { extra }
    }

    /// The raw fields carried through.
    pub fn fields(&self) -> (res: &Vec<(String, JsonValue)>)
        ensures
            res@ == self.spec_fields(),
    {
        &self.extra
    }
}

} // verus!
