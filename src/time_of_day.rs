//! Wall-clock time of day and the half-open, possibly overnight, windows on it.

use vstd::prelude::*;

verus! {

/// Nanoseconds in one second.
pub const NANOS_PER_SEC: u32 = 1_000_000_000;

/// Seconds in one day.
pub const SECS_PER_DAY: u32 = 86_400;

/// A time of day without a date: whole seconds since midnight, and the
/// nanoseconds past that second. A leap second is held as a `nanos` of one
/// second or more, so `nanos` stays below two seconds.
#[derive(Clone, Copy, Debug, PartialEq, Eq, Structural)]
pub struct TimeOfDay {
    pub secs: u32,
    pub nanos: u32,
}

impl TimeOfDay {
    /// The value is a time within one day.
    pub open spec fn wf(self) -> bool {
        self.secs < SECS_PER_DAY && self.nanos < 2 * NANOS_PER_SEC
    }

    /// Builds the time `hour:minute:second`.
    pub fn from_hms(hour: u32, minute: u32, second: u32) -> (r: TimeOfDay)
        requires
            hour < 24,
            minute < 60,
            second < 60,
        ensures
            r.wf(),
            r.secs == hour * 3600 + minute * 60 + second,
            r.nanos == 0,
    {
        TimeOfDay { secs: hour * 3600 + minute * 60 + second, nanos: 0 }
    }
}

/// `a` is not later than `b`.
pub open spec fn time_le(a: TimeOfDay, b: TimeOfDay) -> bool {
    a.secs < b.secs || (a.secs == b.secs && a.nanos <= b.nanos)
}

/// `a` is earlier than `b`.
pub open spec fn time_lt(a: TimeOfDay, b: TimeOfDay) -> bool {
    a.secs < b.secs || (a.secs == b.secs && a.nanos < b.nanos)
}

/// Whether `now` falls in the window from `from` to `to`: half open when
/// `from <= to`, and across midnight when `from > to`.
pub open spec fn in_range(now: TimeOfDay, from: TimeOfDay, to: TimeOfDay) -> bool {
    if time_le(from, to) {
        time_le(from, now) && time_lt(now, to)
    } else {
        time_le(from, now) || time_lt(now, to)
    }
}

fn is_before(a: TimeOfDay, b: TimeOfDay) -> (r: bool)
    ensures
        r == time_lt(a, b),
{
    a.secs < b.secs || (a.secs == b.secs && a.nanos < b.nanos)
}

fn is_not_after(a: TimeOfDay, b: TimeOfDay) -> (r: bool)
    ensures
        r == time_le(a, b),
{
    a.secs < b.secs || (a.secs == b.secs && a.nanos <= b.nanos)
}

/// Tests whether `now` lies in the window `[from, to)`, which wraps past
/// midnight when `from` is later than `to`.
pub fn in_time_range(now: TimeOfDay, from: TimeOfDay, to: TimeOfDay) -> (r: bool)
    ensures
        r == in_range(now, from, to),
{
    if is_not_after(from, to) {
        is_not_after(from, now) && is_before(now, to)
    } else {
        is_not_after(from, now) || is_before(now, to)
    }
}

/// A window whose start is not after its end holds exactly the times from the
/// start up to, and not including, the end; so it never holds its end, and an
/// empty window (start equal to end) holds nothing.
pub proof fn lemma_forward_window(now: TimeOfDay, from: TimeOfDay, to: TimeOfDay)
    requires
        time_le(from, to),
    ensures
        in_range(now, from, to) <==> (time_le(from, now) && time_lt(now, to)),
        now == to ==> !in_range(now, from, to),
        from == to ==> !in_range(now, from, to),
{
}

/// A window whose start is after its end runs across midnight: it holds the
/// times from the start on, and those before the end.
pub proof fn lemma_overnight_window(now: TimeOfDay, from: TimeOfDay, to: TimeOfDay)
    requires
        time_lt(to, from),
    ensures
        in_range(now, from, to) <==> (time_le(from, now) || time_lt(now, to)),
        now == to ==> !in_range(now, from, to),
{
}

} // verus!
