//! Calendar windows: decomposing a `YYYYMM` range into the chronological
//! sequence of monthly fetch windows.

use vstd::prelude::*;

verus! {

/// One calendar month used as a single fetch window: it stands for the
/// half-open interval from the month's first instant to the next month's
/// first instant.
#[derive(Clone, Copy, PartialEq, Eq, Structural, Debug)]
pub struct Window {
    pub year: u32,
    pub month: u32,
}

/// A month number is a calendar month when it lies in 1..=12.
pub open spec fn valid_month(m: u32) -> bool {
    1 <= m <= 12
}

impl Window {
    /// Well-formed: the month field is a calendar month.
    pub open spec fn wf(self) -> bool {
        valid_month(self.month)
    }

    /// Position of this month on the time line, counted in months.
    pub open spec fn index(self) -> int {
        self.year * 12 + (self.month - 1)
    }

    /// Strict chronological order on windows.
    pub open spec fn before(self, other: Window) -> bool {
        self.year < other.year || (self.year == other.year && self.month < other.month)
    }

    /// The following month: December rolls over to January of the next
    /// year.
    pub open spec fn succ(self) -> Window {
        if self.month == 12 {
            Window { year: (self.year + 1) as u32, month: 1u32 }
        } else {
            Window { year: self.year, month: (self.month + 1) as u32 }
        }
    }
}

/// A `YYYYMM` integer encodes a valid month in its last two digits.
pub open spec fn valid_yyyymm(v: u32) -> bool {
    valid_month(v % 100)
}

/// The window a `YYYYMM` integer denotes.
pub open spec fn window_of(v: u32) -> Window {
    Window { year: v / 100, month: v % 100 }
}

/// Split a `YYYYMM` integer into its year and month parts.
pub fn decompose(yyyymm: u32) -> (r: (u32, u32))
    ensures
        r.0 == yyyymm / 100,
        r.1 == yyyymm % 100,
{
    (yyyymm / 100, yyyymm % 100)
}

/// Two well-formed windows at the same month index are the same window.
pub proof fn lemma_index_injective(a: Window, b: Window)
    requires
        a.wf(),
        b.wf(),
        a.index() == b.index(),
    ensures
        a == b,
{
}

/// Chronological order agrees with the order of month indices.
pub proof fn lemma_before_iff_index_lt(a: Window, b: Window)
    requires
        a.wf(),
        b.wf(),
    ensures
        a.before(b) <==> a.index() < b.index(),
{
}

/// The month after `w`, rolling the year over after December: December's
/// successor is January of the next year, never a thirteenth month.
pub fn next_month(w: Window) -> (n: Window)
    requires
        w.wf(),
        w.year < u32::MAX,
    ensures
        n == w.succ(),
        n.wf(),
        n.index() == w.index() + 1,
        w.month == 12 ==> n == (Window { year: (w.year + 1) as u32, month: 1u32 }),
        w.month < 12 ==> n == (Window { year: w.year, month: (w.month + 1) as u32 }),
{
    if w.month == 12 {
        Window { year: w.year + 1, month: 1 }
    } else {
        Window { year: w.year, month: w.month + 1 }
    }
}

/// `YYYYMM` integer order agrees with chronological order of the windows
/// the integers denote.
pub proof fn lemma_yyyymm_order(a: u32, b: u32)
    requires
        valid_yyyymm(a),
        valid_yyyymm(b),
        a <= b,
    ensures
        window_of(a).index() <= window_of(b).index(),
{
    assert(a == 100 * (a / 100) + a % 100);
    assert(b == 100 * (b / 100) + b % 100);
}

/// All monthly windows from `from` to `to` inclusive, in chronological
/// order: the result holds exactly the months whose index lies between
/// the two bounds, consecutively.
pub fn windows_in_range(from: u32, to: u32) -> (ws: Vec<Window>)
    requires
        valid_yyyymm(from),
        valid_yyyymm(to),
        from <= to,
    ensures
        ws@.len() == window_of(to).index() - window_of(from).index() + 1,
        forall|i: int|
            0 <= i < ws@.len() ==> (#[trigger] ws@[i]).wf() && ws@[i].index() == window_of(
                from,
            ).index() + i,
        ws@[0] == window_of(from),
        ws@[ws@.len() - 1] == window_of(to),
{
    let (fy, fm) = decompose(from);
    let (ty, tm) = decompose(to);
    proof {
        lemma_yyyymm_order(from, to);
    }
    let mut ws: Vec<Window> = Vec::new();
    let mut cur = Window { year: fy, month: fm };
    while !(cur.year == ty && cur.month == tm)
        invariant
            cur.wf(),
            valid_yyyymm(from),
            valid_yyyymm(to),
            ty == to / 100,
            tm == to % 100,
            cur.index() == window_of(from).index() + ws@.len(),
            cur.index() <= window_of(to).index(),
            forall|i: int|
                0 <= i < ws@.len() ==> (#[trigger] ws@[i]).wf() && ws@[i].index() == window_of(
                    from,
                ).index() + i,
        decreases window_of(to).index() - cur.index(),
    {
        ws.push(cur);
        proof {
            if cur.index() == window_of(to).index() {
                lemma_index_injective(cur, window_of(to));
                assert(false);
            }
            assert(cur.year * 12 <= cur.index());
            assert(window_of(to).index() <= ty * 12 + 11);
            assert(cur.year <= ty);
        }
        cur = next_month(cur);
    }
    assert(cur == window_of(to));
    ws.push(cur);
    proof {
        assert(forall|i: int|
            0 <= i < ws@.len() ==> (#[trigger] ws@[i]).wf() && ws@[i].index() == window_of(
                from,
            ).index() + i);
        assert(ws@[0].wf() && ws@[0].index() == window_of(from).index());
        lemma_index_injective(ws@[0], window_of(from));
        assert(ws@[ws@.len() - 1] == cur);
    }
    ws
}

/// The scheduled sequence is strictly increasing and free of repeats:
/// law over any window sequence with consecutive month indices, as
/// `windows_in_range` produces.
pub proof fn lemma_schedule_strictly_increasing(ws: Seq<Window>, base: int)
    requires
        forall|i: int|
            0 <= i < ws.len() ==> (#[trigger] ws[i]).wf() && ws[i].index() == base + i,
    ensures
        forall|i: int, j: int| 0 <= i < j < ws.len() ==> (#[trigger] ws[i]).before(#[trigger] ws[j]),
        forall|i: int, j: int| 0 <= i < j < ws.len() ==> ws[i] != ws[j],
{
    assert forall|i: int, j: int| 0 <= i < j < ws.len() implies (#[trigger] ws[i]).before(
        #[trigger] ws[j],
    ) by {
        lemma_before_iff_index_lt(ws[i], ws[j]);
    }
}

/// The schedule has no gaps: every well-formed month lying between the
/// first and last scheduled windows is itself scheduled.
pub proof fn lemma_schedule_complete(ws: Seq<Window>, base: int, w: Window)
    requires
        forall|i: int|
            0 <= i < ws.len() ==> (#[trigger] ws[i]).wf() && ws[i].index() == base + i,
        w.wf(),
        base <= w.index() < base + ws.len(),
    ensures
        exists|i: int| 0 <= i < ws.len() && ws[i] == w,
{
    let i = w.index() - base;
    lemma_index_injective(ws[i], w);
    assert(0 <= i < ws.len() && ws[i] == w);
}

} // verus!
