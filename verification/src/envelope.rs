//! The parsed shape of one search response: result items and pagination
//! metadata, each independently optional.

use vstd::prelude::*;

verus! {

/// One search result as persisted: the identifier, creation timestamp
/// and text. Extra response fields are accepted upstream but not
/// retained here.
#[derive(Clone, Debug)]
pub struct ResultItem {
    pub id: String,
    pub created_at: String,
    pub text: String,
}

/// Pagination metadata of one response page. An empty `next_cursor`
/// means the window has no further page.
#[derive(Clone, Debug)]
pub struct Pagination {
    pub next_cursor: String,
    pub result_count: u32,
}

/// One parsed response: both fields are optional and independently
/// absent-safe. A missing `pagination` ends the window even when items
/// were returned; a missing `items` with a cursor is an empty page with
/// more to come.
#[derive(Clone, Debug)]
pub struct ResponseEnvelope {
    pub items: Option<Vec<ResultItem>>,
    pub pagination: Option<Pagination>,
}

/// The continuation cursor an envelope hands to the next request: the
/// pagination field's cursor, or empty when pagination is absent.
pub open spec fn cursor_of(env: ResponseEnvelope) -> Seq<char> {
    match env.pagination {
        Option::Some(p) => p.next_cursor@,
        Option::None => Seq::<char>::empty(),
    }
}

/// The rows an envelope contributes to the window's sink, in response
/// order: its items, or nothing when the field is absent.
pub open spec fn rows_of(env: ResponseEnvelope) -> Seq<ResultItem> {
    match env.items {
        Option::Some(v) => v@,
        Option::None => Seq::<ResultItem>::empty(),
    }
}

} // verus!
