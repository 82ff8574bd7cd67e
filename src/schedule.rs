//! Schedule entries, the windows read from them, and the matcher that picks
//! the value of the first window holding a given time of day.

use vstd::prelude::*;
use crate::time_of_day::{in_range, in_time_range, TimeOfDay};

verus! {

/// The format of a schedule entry's bounds: a UTC timestamp with milliseconds,
/// of which only the time of day is used.
pub const SCHEDULE_TIME_FORMAT: &'static str = "%Y-%m-%dT%H:%M:%S%.3fZ";

/// One schedule entry as a caller hands it in: two timestamps and the
/// brightness percentage that holds between them.
#[derive(Clone, Debug)]
pub struct ScheduleInfo {
    pub from: String,
    pub to: String,
    pub brightness: u32,
}

/// A window of the day with the value that holds in it.
#[derive(Clone, Copy, Debug, PartialEq, Eq, Structural)]
pub struct ScheduleWindow {
    pub from: TimeOfDay,
    pub to: TimeOfDay,
    pub value: u32,
}

/// What chrono reads as a time of day from `s` in the format `fmt`: the
/// seconds since midnight and the nanoseconds, or nothing where `s` does not
/// parse.
pub uninterp spec fn parsed_clock(s: Seq<char>, fmt: Seq<char>) -> Option<(u32, u32)>;

/// Relies on chrono's `NaiveTime::parse_from_str`, read back through
/// `Timelike::num_seconds_from_midnight` and `Timelike::nanosecond`: a
/// `NaiveTime` holds fewer than 86,400 seconds and fewer than two seconds of
/// nanoseconds (a leap second).
#[verifier::external_body]
fn parse_naive_time(s: &str, fmt: &str) -> (r: Option<TimeOfDay>)
    ensures
        match r {
            Some(t) => t.wf() && parsed_clock(s@, fmt@) == Some((t.secs, t.nanos)),
            None => parsed_clock(s@, fmt@) is None,
        },
{
    match chrono::NaiveTime::parse_from_str(s, fmt) {
        Ok(t) => Some(TimeOfDay {
            secs: chrono::Timelike::num_seconds_from_midnight(&t),
            nanos: chrono::Timelike::nanosecond(&t),
        }),
        Err(_) => None,
    }
}

/// The time of day written in a schedule timestamp, if it parses.
pub open spec fn schedule_time(s: Seq<char>) -> Option<TimeOfDay> {
    match parsed_clock(s, SCHEDULE_TIME_FORMAT@) {
        Some((secs, nanos)) => Some(TimeOfDay { secs, nanos }),
        None => None,
    }
}

/// The window an entry stands for, or nothing where either bound does not
/// parse.
pub open spec fn window_of(info: ScheduleInfo) -> Option<ScheduleWindow> {
    match (schedule_time(info.from@), schedule_time(info.to@)) {
        (Some(from), Some(to)) => Some(ScheduleWindow { from, to, value: info.brightness }),
        _ => None,
    }
}

/// The windows of the entries that parse, in list order.
pub open spec fn parsed_windows(infos: Seq<ScheduleInfo>) -> Seq<ScheduleWindow>
    decreases infos.len(),
{
    if infos.len() == 0 {
        Seq::empty()
    } else {
        let rest = parsed_windows(infos.drop_last());
        match window_of(infos.last()) {
            Some(w) => rest.push(w),
            None => rest,
        }
    }
}

/// The value of the first window in list order that holds `now`.
pub open spec fn first_match(now: TimeOfDay, ws: Seq<ScheduleWindow>) -> Option<u32>
    decreases ws.len(),
{
    if ws.len() == 0 {
        None
    } else if in_range(now, ws[0].from, ws[0].to) {
        Some(ws[0].value)
    } else {
        first_match(now, ws.drop_first())
    }
}

/// Reads the window of one entry; an entry with a bound that does not parse
/// gives none.
pub fn parse_window(info: &ScheduleInfo) -> (r: Option<ScheduleWindow>)
    ensures
        r == window_of(*info),
{
    let from = parse_naive_time(info.from.as_str(), SCHEDULE_TIME_FORMAT);
    let to = parse_naive_time(info.to.as_str(), SCHEDULE_TIME_FORMAT);
    match (from, to) {
        (Some(f), Some(t)) => Some(ScheduleWindow { from: f, to: t, value: info.brightness }),
        _ => None,
    }
}

/// Reads the windows of a list of entries, skipping those that do not parse.
pub fn parse_windows(infos: &Vec<ScheduleInfo>) -> (r: Vec<ScheduleWindow>)
    ensures
        r@ == parsed_windows(infos@),
{
    let mut r: Vec<ScheduleWindow> = Vec::new();
    let mut i: usize = 0;
    while i < infos.len()
        invariant
            i <= infos.len(),
            r@ == parsed_windows(infos@.subrange(0, i as int)),
        decreases infos.len() - i,
    {
        let w = parse_window(&infos[i]);
        proof {
            let next = infos@.subrange(0, i + 1);
            assert(next.drop_last() =~= infos@.subrange(0, i as int));
            assert(next.last() == infos@[i as int]);
        }
        match w {
            Some(w) => r.push(w),
            None => {},
        }
        i = i + 1;
    }
    assert(infos@.subrange(0, infos.len() as int) =~= infos@);
    r
}

/// The value of the first window, in list order, that holds `now`; nothing
/// where none does.
pub fn match_windows(now: TimeOfDay, windows: &Vec<ScheduleWindow>) -> (r: Option<u32>)
    ensures
        r == first_match(now, windows@),
{
    let mut i: usize = 0;
    assert(windows@.subrange(0, windows.len() as int) =~= windows@);
    while i < windows.len()
        invariant
            i <= windows.len(),
            first_match(now, windows@) == first_match(now, windows@.subrange(i as int, windows.len() as int)),
        decreases windows.len() - i,
    {
        proof {
            let rest = windows@.subrange(i as int, windows.len() as int);
            assert(rest.drop_first() =~= windows@.subrange(i + 1, windows.len() as int));
            assert(rest[0] == windows@[i as int]);
        }
        let w = windows[i];
        if in_time_range(now, w.from, w.to) {
            return Some(w.value);
        }
        i = i + 1;
    }
    None
}

/// The brightness of the first entry, in list order, whose window holds
/// `now`; entries that do not parse are passed over.
pub fn find_scheduled_brightness(now: TimeOfDay, schedules: &Vec<ScheduleInfo>) -> (r: Option<u32>)
    ensures
        r == first_match(now, parsed_windows(schedules@)),
{
    let windows = parse_windows(schedules);
    match_windows(now, &windows)
}

/// The first window that holds `now` decides, whatever the windows after it.
pub proof fn lemma_first_match_wins(now: TimeOfDay, ws: Seq<ScheduleWindow>, i: int)
    requires
        0 <= i < ws.len(),
        in_range(now, ws[i].from, ws[i].to),
        forall|j: int| 0 <= j < i ==> !in_range(now, #[trigger] ws[j].from, ws[j].to),
    ensures
        first_match(now, ws) == Some(ws[i].value),
    decreases i,
{
    if i > 0 {
        let rest = ws.drop_first();
        assert forall|j: int| 0 <= j < i - 1 implies !in_range(now, #[trigger] rest[j].from, rest[j].to) by {
            assert(rest[j] == ws[j + 1]);
        }
        assert(!in_range(now, ws[0].from, ws[0].to));
        lemma_first_match_wins(now, rest, i - 1);
    }
}

/// Where no window holds `now`, and in particular where there are no windows,
/// the matcher gives nothing.
pub proof fn lemma_no_match(now: TimeOfDay, ws: Seq<ScheduleWindow>)
    requires
        forall|j: int| 0 <= j < ws.len() ==> !in_range(now, #[trigger] ws[j].from, ws[j].to),
    ensures
        first_match(now, ws) is None,
    decreases ws.len(),
{
    if ws.len() > 0 {
        let rest = ws.drop_first();
        assert forall|j: int| 0 <= j < rest.len() implies !in_range(now, #[trigger] rest[j].from, rest[j].to) by {
            assert(rest[j] == ws[j + 1]);
        }
        assert(!in_range(now, ws[0].from, ws[0].to));
        lemma_no_match(now, rest);
    }
}

/// A value comes back only where some window holds `now`, and it is that
/// window's value.
pub proof fn lemma_match_has_window(now: TimeOfDay, ws: Seq<ScheduleWindow>)
    ensures
        first_match(now, ws) matches Some(v) ==> exists|i: int|
            0 <= i < ws.len() && in_range(now, #[trigger] ws[i].from, ws[i].to) && ws[i].value == v,
    decreases ws.len(),
{
    if ws.len() > 0 && !in_range(now, ws[0].from, ws[0].to) {
        let rest = ws.drop_first();
        lemma_match_has_window(now, rest);
        if let Some(v) = first_match(now, ws) {
            let i = choose|i: int| 0 <= i < rest.len() && in_range(now, #[trigger] rest[i].from, rest[i].to) && rest[i].value == v;
            assert(ws[i + 1] == rest[i]);
        }
    }
}

} // verus!
