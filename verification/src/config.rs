//! Run configuration and the closed error taxonomy. The configuration
//! is validated eagerly: an out-of-range month or a reversed range is
//! rejected with `Configuration` at construction instead of producing a
//! degenerate schedule.

use vstd::prelude::*;
use crate::calendar::valid_yyyymm;
use crate::wire::escaped_tag_chars;

verus! {

/// Why a run failed: the transport could not reach the endpoint, a
/// response body did not match the envelope shape, or the inputs were
/// rejected at construction.
#[derive(Clone, Copy, PartialEq, Eq, Structural, Debug)]
pub enum FetchError {
    Transport,
    Decode,
    Configuration,
}

/// One run's immutable inputs: the escaped search query and the
/// inclusive `YYYYMM` month range.
#[derive(Clone, Debug)]
pub struct FetchConfig {
    pub query: String,
    pub from_date: u32,
    pub end_date: u32,
}

impl FetchConfig {
    /// Both bounds encode calendar months and the range is ordered.
    pub open spec fn wf(self) -> bool {
        valid_yyyymm(self.from_date) && valid_yyyymm(self.end_date) && self.from_date
            <= self.end_date
    }

    /// Validate the range and escape the raw tag. Succeeds exactly when
    /// both bounds encode months 1..=12 in order; anything else is a
    /// `Configuration` error.
    pub fn new(tag: &str, from_date: u32, end_date: u32) -> (r: Result<FetchConfig, FetchError>)
        ensures
            r is Ok <==> (valid_yyyymm(from_date) && valid_yyyymm(end_date) && from_date
                <= end_date),
            r is Ok ==> (r->Ok_0).wf() && (r->Ok_0).query@ == escaped_tag_chars(tag@) && (
            r->Ok_0).from_date == from_date && (r->Ok_0).end_date == end_date,
            r is Err ==> r->Err_0 == FetchError::Configuration,
    {
        if !month_in_range(from_date) || !month_in_range(end_date) || from_date > end_date {
            Err(FetchError::Configuration)
        } else {
            Ok(
                FetchConfig {
                    query: crate::wire::escape_tag(tag),
                    from_date,
                    end_date,
                },
            )
        }
    }
}

/// Whether a `YYYYMM` integer's month part is a calendar month.
fn month_in_range(v: u32) -> (b: bool)
    ensures
        b == valid_yyyymm(v),
{
    let m = v % 100;
    1 <= m && m <= 12
}

} // verus!
