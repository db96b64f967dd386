//! Cursor pagination within one calendar window: the per-page state
//! machine the fetch loop drives, the trace model of a whole window, and
//! the laws that the loop terminates exactly at the first terminal page
//! and emits every page's rows in response order.

use vstd::prelude::*;
use crate::envelope::{ResponseEnvelope, ResultItem, cursor_of, rows_of};

verus! {

/// Fixed pause between successive pages of one window, in seconds: on
/// top of the rate gate, to avoid bursting even within budget.
pub const INTER_PAGE_DELAY_SECS: u64 = 1;

/// The pagination state of one window: the cursor to send with the next
/// request (empty on the first page), whether any page was absorbed yet,
/// and whether the window is exhausted.
pub struct PageLoop {
    pub cursor: String,
    pub first: bool,
    pub done: bool,
}

impl PageLoop {
    /// A fresh window: first request carries the empty cursor.
    pub fn new() -> (s: Self)
        ensures
            s.cursor@ == Seq::<char>::empty(),
            s.first,
            !s.done,
    {
        PageLoop { cursor: String::new(), first: true, done: false }
    }

    /// Absorb one response envelope, handing back the rows to append to
    /// the window's sink. The next cursor comes from the pagination
    /// field when present, else it is empty; the window is exhausted
    /// exactly when that cursor is empty. An absent `items` with a
    /// cursor continues the loop without emitting any row.
    pub fn absorb(&mut self, env: ResponseEnvelope) -> (rows: Vec<ResultItem>)
        requires
            !old(self).done,
        ensures
            rows@ == rows_of(env),
            final(self).cursor@ == cursor_of(env),
            final(self).done == (cursor_of(env).len() == 0),
            !final(self).first,
    {
        let rows = match env.items {
            Option::Some(v) => v,
            Option::None => Vec::new(),
        };
        self.cursor = match env.pagination {
            Option::Some(p) => p.next_cursor,
            Option::None => String::new(),
        };
        self.done = self.cursor.as_str().is_empty();
        self.first = false;
        rows
    }
}

/// How many requests the window loop issues when the server answers the
/// k-th request with `envs[k]`: one per envelope consumed, stopping at
/// the first envelope whose continuation cursor is empty.
pub open spec fn requests_for(envs: Seq<ResponseEnvelope>) -> nat
    decreases envs.len(),
{
    if envs.len() == 0 {
        0
    } else if cursor_of(envs[0]).len() == 0 {
        1
    } else {
        1 + requests_for(envs.drop_first())
    }
}

/// The rows the window loop appends to the sink, in response order: the
/// concatenation of the consumed envelopes' items.
pub open spec fn rows_for(envs: Seq<ResponseEnvelope>) -> Seq<ResultItem>
    decreases envs.len(),
{
    if envs.len() == 0 {
        Seq::<ResultItem>::empty()
    } else if cursor_of(envs[0]).len() == 0 {
        rows_of(envs[0])
    } else {
        rows_of(envs[0]) + rows_for(envs.drop_first())
    }
}

/// The loop never consumes more envelopes than the server has pages.
pub proof fn lemma_requests_at_most_len(envs: Seq<ResponseEnvelope>)
    ensures
        requests_for(envs) <= envs.len(),
    decreases envs.len(),
{
    if envs.len() > 0 && cursor_of(envs[0]).len() > 0 {
        lemma_requests_at_most_len(envs.drop_first());
    }
}

/// Pagination termination: when every envelope but the last carries a
/// continuation cursor and the last does not, the loop issues exactly
/// one request per envelope and then stops.
pub proof fn lemma_pagination_termination(envs: Seq<ResponseEnvelope>)
    requires
        envs.len() > 0,
        forall|i: int| 0 <= i < envs.len() - 1 ==> cursor_of(#[trigger] envs[i]).len() > 0,
        cursor_of(envs[envs.len() - 1]).len() == 0,
    ensures
        requests_for(envs) == envs.len(),
    decreases envs.len(),
{
    if envs.len() > 1 {
        assert(cursor_of(envs[0]).len() > 0);
        let rest = envs.drop_first();
        assert forall|i: int| 0 <= i < rest.len() - 1 implies cursor_of(
            #[trigger] rest[i],
        ).len() > 0 by {
            assert(rest[i] == envs[i + 1]);
        }
        assert(rest[rest.len() - 1] == envs[envs.len() - 1]);
        lemma_pagination_termination(rest);
    }
}

/// Empty-page continuation: an envelope with no items but a non-empty
/// cursor adds no row and costs one request; the loop then goes on with
/// the remaining pages.
pub proof fn lemma_empty_page_continuation(env: ResponseEnvelope, rest: Seq<ResponseEnvelope>)
    requires
        env.items is None,
        cursor_of(env).len() > 0,
    ensures
        rows_for(seq![env] + rest) == rows_for(rest),
        requests_for(seq![env] + rest) == 1 + requests_for(rest),
{
    let all = seq![env] + rest;
    assert(all[0] == env);
    assert(all.drop_first() =~= rest);
    assert(rows_for(all) =~= rows_for(rest));
}

/// Drain one window against a scripted page sequence: drives `PageLoop`
/// exactly as the fetch loop does, returning how many requests were
/// issued and every consumed page's rows in response order.
pub fn drain_window(envs: Vec<ResponseEnvelope>) -> (r: (usize, Vec<ResultItem>))
    requires
        envs@.len() > 0,
        cursor_of(envs@[envs@.len() - 1]).len() == 0,
    ensures
        r.0 == requests_for(envs@),
        r.1@ == rows_for(envs@),
{
    let ghost all = envs@;
    let mut envs = envs;
    let n = envs.len();
    let mut out: Vec<ResultItem> = Vec::new();
    let mut pl = PageLoop::new();
    let mut count: usize = 0;
    proof {
        lemma_requests_at_most_len(all);
    }
    loop
        invariant_except_break
            !pl.done,
            count < all.len(),
            all.len() == envs@.len() + count,
            envs@ == all.skip(count as int),
            requests_for(all) == count + requests_for(envs@),
            rows_for(all) == out@ + rows_for(envs@),
        invariant
            all.len() == n,
            cursor_of(all[all.len() - 1]).len() == 0,
        ensures
            count == requests_for(all),
            out@ == rows_for(all),
        decreases envs@.len(),
    {
        let ghost pre = envs@;
        let e = envs.remove(0);
        let mut rows = pl.absorb(e);
        out.append(&mut rows);
        count += 1;
        proof {
            assert(pre[0] == all[count - 1]);
            assert(envs@ =~= all.skip(count as int));
            if cursor_of(e).len() == 0 {
                assert(requests_for(pre) == 1);
                assert(rows_for(pre) == rows_of(e));
                assert(out@ =~= rows_for(all));
            } else {
                assert(pre.drop_first() =~= envs@);
                assert(requests_for(pre) == 1 + requests_for(envs@));
                assert(rows_for(pre) == rows_of(e) + rows_for(envs@));
                assert(rows_for(all) =~= out@ + rows_for(envs@));
                if count >= all.len() {
                    assert(e == all[all.len() - 1]);
                    assert(false);
                }
            }
        }
        if pl.done {
            break;
        }
    }
    (count, out)
}

} // verus!
