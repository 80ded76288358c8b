//! Time windows over epoch-second timestamps, and the start of the local day.
use vstd::prelude::*;

verus! {

/// Seconds in one calendar day.
pub const SECONDS_PER_DAY: i64 = 86400;

/// An optional pair of bounds on a timestamp. Both bounds are strict: a
/// timestamp lies in the window when it is greater than `start` (if given)
/// and less than `end` (if given).
#[derive(Clone, Copy, Debug, PartialEq, Eq, Structural)]
pub struct TimeWindow {
    pub start: Option<i64>,
    pub end: Option<i64>,
}

/// Whether timestamp `t` lies strictly inside the window.
pub open spec fn in_window(w: TimeWindow, t: int) -> bool {
    &&& (w.start is Some ==> t > w.start->Some_0)
    &&& (w.end is Some ==> t < w.end->Some_0)
}

/// The bound values that a filter over the window binds, in the order in
/// which the filter names them.
pub open spec fn bind_seq(w: TimeWindow) -> Seq<i64> {
    match (w.start, w.end) {
        (Some(s), Some(e)) => seq![s, e],
        (Some(s), None) => seq![s],
        (None, Some(e)) => seq![e],
        (None, None) => seq![],
    }
}

impl TimeWindow {
    /// The window without bounds, which holds every timestamp.
    pub fn unbounded() -> (r: TimeWindow)
        ensures
            r.start is None,
            r.end is None,
            forall|t: int| in_window(r, t),
    {
        TimeWindow { start: None, end: None }
    }

    /// Whether `t` lies strictly between the bounds that are present.
    pub fn contains(&self, t: i64) -> (r: bool)
        ensures
            r == in_window(*self, t as int),
    {
        let above = match self.start {
            Some(s) => t > s,
            None => true,
        };
        let below = match self.end {
            Some(e) => t < e,
            None => true,
        };
        above && below
    }

    /// Whether some filter applies at all.
    pub fn is_bounded(&self) -> (r: bool)
        ensures
            r == (self.start is Some || self.end is Some),
    {
        self.start.is_some() || self.end.is_some()
    }

    /// The values that a filter over the window binds: `start` first, then
    /// `end`, each only when present.
    pub fn bind_values(&self) -> (r: Vec<i64>)
        ensures
            r@ == bind_seq(*self),
    {
        let mut v: Vec<i64> = Vec::new();
        if let Some(s) = self.start {
            v.push(s);
        }
        if let Some(e) = self.end {
            v.push(e);
        }
        proof {
            assert(v@ =~= bind_seq(*self));
        }
        v
    }
}

/// The number of the local calendar day that holds instant `now`, for a
/// local time `offset` seconds ahead of UTC.
pub open spec fn local_day(now: int, offset: int) -> int {
    (now + offset) / (SECONDS_PER_DAY as int)
}

/// The instant of local midnight that begins the day holding `now`.
pub open spec fn day_start(now: int, offset: int) -> int {
    local_day(now, offset) * (SECONDS_PER_DAY as int) - offset
}

/// The instant of local midnight that begins the day holding `now`, for a
/// local time `utc_offset` seconds ahead of UTC.
pub fn local_day_start(now: i64, utc_offset: i32) -> (r: i64)
    requires
        -SECONDS_PER_DAY < utc_offset < SECONDS_PER_DAY,
        now >= i64::MIN + SECONDS_PER_DAY,
    ensures
        r == day_start(now as int, utc_offset as int),
        r <= now,
        now - r < SECONDS_PER_DAY,
{
    let off = utc_offset as i64;
    let a = now.checked_rem_euclid(SECONDS_PER_DAY).unwrap();
    let b = off.checked_rem_euclid(SECONDS_PER_DAY).unwrap();
    let mut rem: i64 = a + b;
    if rem >= SECONDS_PER_DAY {
        rem = rem - SECONDS_PER_DAY;
    }
    proof {
        let n = now as int;
        let o = off as int;
        let d = SECONDS_PER_DAY as int;
        assert(rem as int == (n + o) % d) by {
            vstd::arithmetic::div_mod::lemma_add_mod_noop(n, o, d);
            vstd::arithmetic::div_mod::lemma_mod_twice(n + o, d);
            if a + b >= d {
                vstd::arithmetic::div_mod::lemma_mod_add_multiples_vanish(a + b - d, d);
                vstd::arithmetic::div_mod::lemma_small_mod((a + b - d) as nat, d as nat);
            } else {
                vstd::arithmetic::div_mod::lemma_small_mod((a + b) as nat, d as nat);
            }
        }
        vstd::arithmetic::div_mod::lemma_fundamental_div_mod(n + o, d);
    }
    now - rem
}

/// The instant of the local midnight that begins the day holding `now`, for
/// a local time `utc_offset` seconds ahead of UTC; `None` where the offset is
/// a day or more, or `now` lies within a day of the earliest instant an `i64`
/// holds.
pub fn day_start_checked(now: i64, utc_offset: i32) -> (r: Option<i64>)
    ensures
        r is None <==> (now < i64::MIN + SECONDS_PER_DAY || utc_offset <= -SECONDS_PER_DAY
            || utc_offset >= SECONDS_PER_DAY),
        r matches Some(s) ==> s == day_start(now as int, utc_offset as int),
{
    if now < i64::MIN + SECONDS_PER_DAY || (utc_offset as i64) <= -SECONDS_PER_DAY
        || (utc_offset as i64) >= SECONDS_PER_DAY {
        None
    } else {
        Some(local_day_start(now, utc_offset))
    }
}

} // verus!
