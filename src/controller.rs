//! The controller's state: the current schedule, the running loop's
//! cancellation token and task handle, and the replace and cancel protocol that
//! keeps at most one loop running. The state is meant to sit behind one mutex,
//! held across each operation here and the spawning of a new loop.

use vstd::prelude::*;
use crate::schedule::ScheduleInfo;
use tokio::task::JoinHandle;
use tokio_util::sync::CancellationToken;

verus! {

#[verifier::external_type_specification]
#[verifier::external_body]
pub struct ExCancellationToken(tokio_util::sync::CancellationToken);

#[verifier::external_type_specification]
#[verifier::external_body]
#[verifier::reject_recursive_types(T)]
pub struct ExJoinHandle<T>(tokio::task::JoinHandle<T>);

/// Declared because `JoinHandle`'s `Future` impl names it as its output's
/// error; nothing here reads one.
#[verifier::external_type_specification]
#[verifier::external_body]
pub struct ExJoinError(tokio::task::JoinError);

/// Relies on tokio-util's `CancellationToken::new`: a fresh token, not
/// cancelled.
pub assume_specification[ tokio_util::sync::CancellationToken::new ]() -> tokio_util::sync::CancellationToken;

/// Relies on tokio-util's `CancellationToken::cancel`: raises the signal for
/// this token and its clones.
pub assume_specification[ tokio_util::sync::CancellationToken::cancel ](
    self_: &tokio_util::sync::CancellationToken,
);

/// Relies on tokio-util's `Clone` for `CancellationToken`: a handle on the same
/// shared signal, so the same token.
pub assume_specification[ <tokio_util::sync::CancellationToken as Clone>::clone ](
    self_: &tokio_util::sync::CancellationToken,
) -> (r: tokio_util::sync::CancellationToken)
    ensures
        r == *self_,
;

/// Relies on tokio's `JoinHandle::abort`: asks the runtime to stop the task.
pub assume_specification<T>[ tokio::task::JoinHandle::<T>::abort ](self_: &tokio::task::JoinHandle<T>);

/// A structured reply to a caller: whether the operation succeeded, what it
/// returns, and a message for people.
#[derive(Clone, Debug)]
pub struct EventResponse<T> {
    pub success: bool,
    pub data: Option<T>,
    pub message: String,
}

/// The decimal digit for `d`.
pub open spec fn digit_char(d: int) -> char {
    if d == 0 { '0' }
    else if d == 1 { '1' }
    else if d == 2 { '2' }
    else if d == 3 { '3' }
    else if d == 4 { '4' }
    else if d == 5 { '5' }
    else if d == 6 { '6' }
    else if d == 7 { '7' }
    else if d == 8 { '8' }
    else { '9' }
}

/// `n` written in decimal, without leading zeros.
pub open spec fn decimal_digits(n: nat) -> Seq<char>
    decreases n,
{
    if n < 10 {
        seq![digit_char(n as int)]
    } else {
        decimal_digits(n / 10).push(digit_char((n % 10) as int))
    }
}

/// Relies on std's `ToString` for `u32`, through its `Display`: the number in
/// decimal, without leading zeros.
#[verifier::external_body]
fn decimal_text(n: u32) -> (r: String)
    ensures
        r@ == decimal_digits(n as nat),
{
    n.to_string()
}

/// Relies on std's `String::push_str`: appends `t`.
#[verifier::external_body]
fn push_text(s: &mut String, t: &str)
    ensures
        final(s)@ == old(s)@ + t@,
{
    s.push_str(t)
}

/// The reply to a request for a brightness: success, with the percentage in
/// the message, or the failure.
pub fn brightness_response(applied: bool, percentage: u32) -> (r: EventResponse<()>)
    ensures
        r.success == applied,
        r.data == Some(()),
        applied ==> r.message@ == "Brightness set to "@ + decimal_digits(percentage as nat),
        !applied ==> r.message@ == "Error Setting Brightness"@,
{
    if applied {
        let mut message = "Brightness set to ".to_string();
        let digits = decimal_text(percentage);
        push_text(&mut message, digits.as_str());
        EventResponse { success: true, data: Some(()), message }
    } else {
        EventResponse { success: false, data: Some(()), message: "Error Setting Brightness".to_string() }
    }
}

/// What `cancel` found and did.
#[derive(Clone, Copy, Debug, PartialEq, Eq, Structural)]
pub enum CancelOutcome {
    /// A loop's cancellation token was signalled.
    Cancelled,
    /// A task handle without a token was stopped by force.
    Aborted,
    /// Nothing was running.
    NoOp,
}

impl CancelOutcome {
    /// The reply to the caller of a cancel: success unless nothing ran.
    pub fn response(self) -> (r: EventResponse<()>)
        ensures
            r.success == (self != CancelOutcome::NoOp),
            r.data == (if self == CancelOutcome::NoOp { None } else { Some(()) }),
            self == CancelOutcome::Cancelled ==> r.message@ == "Cancelled"@,
            self == CancelOutcome::Aborted ==> r.message@ == "Aborted"@,
            self == CancelOutcome::NoOp ==> r.message@ == "No scheduler to cancel"@,
    {
        match self {
            CancelOutcome::Cancelled => EventResponse { success: true, data: Some(()), message: "Cancelled".to_string() },
            CancelOutcome::Aborted => EventResponse { success: true, data: Some(()), message: "Aborted".to_string() },
            CancelOutcome::NoOp => EventResponse { success: false, data: None, message: "No scheduler to cancel".to_string() },
        }
    }
}

/// A loop's cancellation token, with a record of whether this library has
/// signalled it.
pub struct LoopToken {
    token: CancellationToken,
    signalled: Ghost<bool>,
}

impl LoopToken {
    /// The token held.
    pub closed spec fn inner(&self) -> CancellationToken {
        self.token
    }

    /// Whether this library has raised the token's signal.
    pub closed spec fn is_signalled(&self) -> bool {
        self.signalled@
    }

    /// A fresh token, not signalled.
    pub fn new() -> (r: LoopToken)
        ensures
            !r.is_signalled(),
    {
        LoopToken { token: CancellationToken::new(), signalled: Ghost(false) }
    }

    /// A handle on the same signal, for the loop that this token stops.
    pub fn handle(&self) -> (r: CancellationToken)
        ensures
            r == self.inner(),
    {
        self.token.clone()
    }

    /// The token held.
    pub fn get(&self) -> (r: &CancellationToken)
        ensures
            *r == self.inner(),
    {
        &self.token
    }

    /// Raises the signal: the loop holding a handle on it stops at its next
    /// wait.
    pub fn signal(&mut self)
        ensures
            final(self).inner() == old(self).inner(),
            final(self).is_signalled(),
    {
        self.token.cancel();
        self.signalled = Ghost(true);
    }
}

/// A loop's task handle, with a record of whether this library has aborted
/// the task.
pub struct LoopTask {
    handle: JoinHandle<()>,
    aborted: Ghost<bool>,
}

impl LoopTask {
    /// The task handle held.
    pub closed spec fn inner(&self) -> JoinHandle<()> {
        self.handle
    }

    /// Whether this library has stopped the task by force.
    pub closed spec fn is_aborted(&self) -> bool {
        self.aborted@
    }

    /// Holds the handle of a spawned loop, not aborted.
    pub fn new(handle: JoinHandle<()>) -> (r: LoopTask)
        ensures
            r.inner() == handle,
            !r.is_aborted(),
    {
        LoopTask { handle, aborted: Ghost(false) }
    }

    /// Stops the task by force.
    pub fn abort(&mut self)
        ensures
            final(self).inner() == old(self).inner(),
            final(self).is_aborted(),
    {
        self.handle.abort();
        self.aborted = Ghost(true);
    }
}

/// What an operation took out of the controller's state: the token and the
/// task of a loop that no longer runs.
pub struct Retired {
    pub token: Option<LoopToken>,
    pub runner: Option<LoopTask>,
}

/// `retired` is `old`, signalled; nothing where there was nothing.
pub open spec fn retired_token(old: Option<LoopToken>, retired: Option<LoopToken>) -> bool {
    match old {
        Some(t) => retired matches Some(u) && u.inner() == t.inner() && u.is_signalled(),
        None => retired is None,
    }
}

/// `retired` is `old`, aborted; nothing where there was nothing.
pub open spec fn retired_runner(old: Option<LoopTask>, retired: Option<LoopTask>) -> bool {
    match old {
        Some(t) => retired matches Some(u) && u.inner() == t.inner() && u.is_aborted(),
        None => retired is None,
    }
}

/// The controller's state. A running loop has both a token and a task
/// handle; `replace_schedule` records the token, and `attach_runner` the
/// handle of the loop spawned with it.
pub struct SchedulerStateInner {
    pub schedules: Vec<ScheduleInfo>,
    pub token: Option<LoopToken>,
    pub runner: Option<LoopTask>,
}

impl SchedulerStateInner {
    /// Token and task handle are present together or absent together.
    pub open spec fn wf(&self) -> bool {
        self.token.is_some() == self.runner.is_some()
    }

    /// No schedule and no loop.
    pub fn new() -> (r: SchedulerStateInner)
        ensures
            r.wf(),
            r.schedules@.len() == 0,
            r.token is None,
            r.runner is None,
    {
        SchedulerStateInner { schedules: Vec::new(), token: None, runner: None }
    }

    /// Makes `schedules` the current schedule and retires the running loop:
    /// its token is signalled and its task aborted, and only then is a fresh
    /// token made and stored. Returns a handle on the fresh token, for the loop
    /// to be spawned (whose task `attach_runner` then records), and the
    /// retired token and task.
    pub fn replace_schedule(&mut self, schedules: Vec<ScheduleInfo>) -> (r: (CancellationToken, Retired))
        ensures
            final(self).schedules@ == schedules@,
            final(self).token matches Some(t) && t.inner() == r.0 && !t.is_signalled(),
            final(self).runner is None,
            retired_token(old(self).token, r.1.token),
            retired_runner(old(self).runner, r.1.runner),
    {
        self.schedules = schedules;
        let mut old_token = self.token.take();
        match &mut old_token {
            Some(t) => t.signal(),
            None => {},
        }
        let mut old_runner = self.runner.take();
        match &mut old_runner {
            Some(t) => t.abort(),
            None => {},
        }
        let fresh = LoopToken::new();
        let handle = fresh.handle();
        self.token = Some(fresh);
        (handle, Retired { token: old_token, runner: old_runner })
    }

    /// Records the task of the loop spawned after `replace_schedule`.
    pub fn attach_runner(&mut self, runner: JoinHandle<()>)
        requires
            old(self).token is Some,
            old(self).runner is None,
        ensures
            final(self).wf(),
            final(self).schedules@ == old(self).schedules@,
            final(self).token == old(self).token,
            final(self).runner matches Some(t) && t.inner() == runner && !t.is_aborted(),
    {
        self.runner = Some(LoopTask::new(runner));
    }

    /// Stops the running loop. With a token, signals it and leaves it stored
    /// with the schedule and the task (`Cancelled`). Without one, clears the
    /// schedule, and aborts a stray task, handing it back (`Aborted`), or finds
    /// nothing (`NoOp`).
    pub fn cancel(&mut self) -> (r: (CancelOutcome, Retired))
        ensures
            old(self).token matches Some(t) ==> r.0 == CancelOutcome::Cancelled
                && final(self).schedules@ == old(self).schedules@
                && (final(self).token matches Some(u) && u.inner() == t.inner() && u.is_signalled())
                && final(self).runner == old(self).runner
                && r.1.token is None && r.1.runner is None,
            old(self).token is None ==> final(self).schedules@.len() == 0
                && final(self).token is None
                && final(self).runner is None
                && r.1.token is None
                && retired_runner(old(self).runner, r.1.runner),
            old(self).token is None && old(self).runner is Some ==> r.0 == CancelOutcome::Aborted,
            old(self).token is None && old(self).runner is None ==> r.0 == CancelOutcome::NoOp,
            old(self).wf() ==> final(self).wf(),
    {
        match &mut self.token {
            Some(token) => {
                token.signal();
                (CancelOutcome::Cancelled, Retired { token: None, runner: None })
            },
            None => {
                self.schedules.clear();
                match self.runner.take() {
                    Some(mut runner) => {
                        runner.abort();
                        (CancelOutcome::Aborted, Retired { token: None, runner: Some(runner) })
                    },
                    None => (CancelOutcome::NoOp, Retired { token: None, runner: None }),
                }
            },
        }
    }
}

/// Two replacements in a row leave exactly one loop: the token of the second,
/// not signalled, with its task; the first loop's token was signalled and its
/// task aborted when the second replacement retired them.
pub proof fn lemma_replace_twice(
    s0: SchedulerStateInner,
    s1: SchedulerStateInner,
    h1: CancellationToken,
    r1: Retired,
    task1: JoinHandle<()>,
    s2: SchedulerStateInner,
    s3: SchedulerStateInner,
    h2: CancellationToken,
    r2: Retired,
    task2: JoinHandle<()>,
    s4: SchedulerStateInner,
)
    requires
        // replace_schedule on s0 gives s1, h1 and r1.
        s1.token matches Some(t) && t.inner() == h1 && !t.is_signalled(),
        s1.runner is None,
        retired_token(s0.token, r1.token),
        retired_runner(s0.runner, r1.runner),
        // attach_runner(task1) on s1 gives s2.
        s2.token == s1.token,
        s2.runner matches Some(t) && t.inner() == task1 && !t.is_aborted(),
        // replace_schedule on s2 gives s3, h2 and r2.
        s3.token matches Some(t) && t.inner() == h2 && !t.is_signalled(),
        s3.runner is None,
        retired_token(s2.token, r2.token),
        retired_runner(s2.runner, r2.runner),
        // attach_runner(task2) on s3 gives s4.
        s4.token == s3.token,
        s4.runner matches Some(t) && t.inner() == task2 && !t.is_aborted(),
    ensures
        s4.wf(),
        s4.token matches Some(t) && t.inner() == h2 && !t.is_signalled(),
        s4.runner matches Some(t) && t.inner() == task2,
        r2.token matches Some(t) && t.inner() == h1 && t.is_signalled(),
        r2.runner matches Some(t) && t.inner() == task1 && t.is_aborted(),
{
}

} // verus!
