//! The scheduler loop's decisions. The loop itself waits on the first of two
//! events, the timer and the cancellation signal, reads the clock, and hands
//! both to `BrightnessLoop::on_event_at`, which says what to do next.

use vstd::prelude::*;
use crate::schedule::{find_scheduled_brightness, first_match, parsed_windows, ScheduleInfo};
use crate::time_of_day::TimeOfDay;

verus! {

/// Where a scheduler loop stands.
#[derive(Clone, Copy, Debug, PartialEq, Eq, Structural)]
pub enum LoopPhase {
    /// Started, not yet ticked.
    Idle,
    /// The timer has fired at least once.
    Ticking,
    /// Cancelled: no further ticks, no further changes of brightness.
    Cancelled,
}

/// What the loop's wait ended on.
#[derive(Clone, Copy, Debug, PartialEq, Eq, Structural)]
pub enum LoopEvent {
    /// The refresh timer fired.
    TimerFired,
    /// The loop's cancellation signal was raised.
    CancelRequested,
}

/// What the loop does next.
#[derive(Clone, Copy, Debug, PartialEq, Eq, Structural)]
pub enum LoopAction {
    /// Change the brightness gradually to this percentage, then wait again.
    SetBrightness(u32),
    /// No window holds the current time: wait for the next event.
    Wait,
    /// Leave the loop.
    Stop,
}

/// A scheduler loop: the schedule and refresh interval it was started with,
/// and where it stands. Later changes of the controller's schedule do not
/// reach it: a new schedule starts a new loop.
#[derive(Debug)]
pub struct BrightnessLoop {
    pub schedules: Vec<ScheduleInfo>,
    /// Seconds between two ticks.
    pub refresh_interval: u64,
    pub phase: LoopPhase,
}

/// The action for a tick at `now` with these schedule entries.
pub open spec fn tick_action(now: TimeOfDay, schedules: Seq<ScheduleInfo>) -> LoopAction {
    match first_match(now, parsed_windows(schedules)) {
        Some(b) => LoopAction::SetBrightness(b),
        None => LoopAction::Wait,
    }
}

impl BrightnessLoop {
    /// A loop over `schedules`, ticking every `refresh_interval` seconds.
    pub fn new(schedules: Vec<ScheduleInfo>, refresh_interval: u64) -> (r: BrightnessLoop)
        ensures
            r.schedules@ == schedules@,
            r.refresh_interval == refresh_interval,
            r.phase == LoopPhase::Idle,
    {
        BrightnessLoop { schedules, refresh_interval, phase: LoopPhase::Idle }
    }

    /// Decides on `event`, the current time of day being `now`. A cancelled
    /// loop only stops; a cancellation stops it for good; a tick asks for the
    /// brightness of the first window holding `now`, or for nothing.
    pub fn on_event_at(&mut self, event: LoopEvent, now: TimeOfDay) -> (r: LoopAction)
        ensures
            final(self).schedules@ == old(self).schedules@,
            final(self).refresh_interval == old(self).refresh_interval,
            old(self).phase == LoopPhase::Cancelled ==> r == LoopAction::Stop && final(self).phase
                == LoopPhase::Cancelled,
            old(self).phase != LoopPhase::Cancelled && event == LoopEvent::CancelRequested ==> r
                == LoopAction::Stop && final(self).phase == LoopPhase::Cancelled,
            old(self).phase != LoopPhase::Cancelled && event == LoopEvent::TimerFired ==> r
                == tick_action(now, old(self).schedules@) && final(self).phase == LoopPhase::Ticking,
    {
        if self.phase == LoopPhase::Cancelled {
            return LoopAction::Stop;
        }
        match event {
            LoopEvent::CancelRequested => {
                self.phase = LoopPhase::Cancelled;
                LoopAction::Stop
            },
            LoopEvent::TimerFired => {
                self.phase = LoopPhase::Ticking;
                match find_scheduled_brightness(now, &self.schedules) {
                    Some(b) => LoopAction::SetBrightness(b),
                    None => LoopAction::Wait,
                }
            },
        }
    }
}

} // verus!
