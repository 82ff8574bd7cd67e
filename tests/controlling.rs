use smartscreen::controller::{brightness_response, CancelOutcome, LoopTask, SchedulerStateInner};
use smartscreen::schedule::ScheduleInfo;
use smartscreen::scheduler::{BrightnessLoop, LoopAction, LoopEvent, LoopPhase};
use smartscreen::time_of_day::TimeOfDay;

fn runtime() -> tokio::runtime::Runtime {
    tokio::runtime::Builder::new_current_thread().enable_all().build().unwrap()
}

fn entry(from: &str, to: &str, brightness: u32) -> ScheduleInfo {
    ScheduleInfo { from: from.to_string(), to: to.to_string(), brightness }
}

#[test]
fn replacing_twice_leaves_one_loop() {
    let rt = runtime();
    rt.block_on(async {
        let mut state = SchedulerStateInner::new();
        let (first, retired) = state.replace_schedule(vec![entry("a", "b", 10)]);
        assert!(retired.token.is_none() && retired.runner.is_none());
        let first_seen_by_second = first.clone();
        state.attach_runner(tokio::spawn(async move { first.cancelled().await }));
        assert!(!first_seen_by_second.is_cancelled());

        let (second, retired) = state.replace_schedule(vec![entry("c", "d", 20)]);
        assert!(retired.token.as_ref().unwrap().get().is_cancelled());
        assert!(retired.runner.is_some());
        // The first loop's signal is raised before the second loop is spawned.
        assert!(first_seen_by_second.is_cancelled());
        assert!(!second.is_cancelled());
        let second_clone = second.clone();
        state.attach_runner(tokio::spawn(async move { second_clone.cancelled().await }));

        assert!(state.token.is_some());
        assert!(state.runner.is_some());
        assert!(!state.token.as_ref().unwrap().get().is_cancelled());
        assert_eq!(state.schedules.len(), 1);
        assert_eq!(state.schedules[0].brightness, 20);

        assert_eq!(state.cancel().0, CancelOutcome::Cancelled);
        assert!(second.is_cancelled());
    });
}

#[test]
fn cancel_with_nothing_running_is_noop() {
    let mut state = SchedulerStateInner::new();
    assert_eq!(state.cancel().0, CancelOutcome::NoOp);
    let mut leftover = SchedulerStateInner {
        schedules: vec![entry("a", "b", 10)],
        token: None,
        runner: None,
    };
    assert_eq!(leftover.cancel().0, CancelOutcome::NoOp);
    assert!(leftover.schedules.is_empty());
}

#[test]
fn cancel_stray_runner_is_aborted() {
    let rt = runtime();
    rt.block_on(async {
        let mut state = SchedulerStateInner {
            schedules: vec![entry("a", "b", 10)],
            token: None,
            runner: Some(LoopTask::new(tokio::spawn(async {
                tokio::time::sleep(std::time::Duration::from_secs(3600)).await
            }))),
        };
        let (outcome, retired) = state.cancel();
        assert_eq!(outcome, CancelOutcome::Aborted);
        assert!(retired.runner.is_some());
        assert!(state.schedules.is_empty());
        assert!(state.runner.is_none());
        assert_eq!(state.cancel().0, CancelOutcome::NoOp);
    });
}

#[test]
fn cancel_responses() {
    let r = CancelOutcome::Cancelled.response();
    assert!(r.success);
    assert_eq!(r.data, Some(()));
    assert_eq!(r.message, "Cancelled");
    let r = CancelOutcome::Aborted.response();
    assert!(r.success);
    assert_eq!(r.message, "Aborted");
    let r = CancelOutcome::NoOp.response();
    assert!(!r.success);
    assert_eq!(r.data, None);
    assert_eq!(r.message, "No scheduler to cancel");
}

#[test]
fn loop_ticks_then_stops_on_cancel() {
    let schedules = vec![
        entry("2024-03-01T09:00:00.000Z", "2024-03-01T17:00:00.000Z", 80),
        entry("2024-03-01T22:00:00.000Z", "2024-03-02T06:00:00.000Z", 20),
    ];
    let mut lp = BrightnessLoop::new(schedules, 60);
    assert_eq!(lp.phase, LoopPhase::Idle);
    let at = |h: u32| TimeOfDay::from_hms(h, 0, 0);
    assert_eq!(lp.on_event_at(LoopEvent::TimerFired, at(10)), LoopAction::SetBrightness(80));
    assert_eq!(lp.phase, LoopPhase::Ticking);
    assert_eq!(lp.on_event_at(LoopEvent::TimerFired, at(23)), LoopAction::SetBrightness(20));
    assert_eq!(lp.on_event_at(LoopEvent::TimerFired, at(19)), LoopAction::Wait);
    assert_eq!(lp.on_event_at(LoopEvent::CancelRequested, at(10)), LoopAction::Stop);
    assert_eq!(lp.phase, LoopPhase::Cancelled);
    assert_eq!(lp.on_event_at(LoopEvent::TimerFired, at(10)), LoopAction::Stop);
    assert_eq!(lp.on_event_at(LoopEvent::CancelRequested, at(3)), LoopAction::Stop);
}

#[test]
fn brightness_responses() {
    let r = brightness_response(true, 42);
    assert!(r.success);
    assert_eq!(r.data, Some(()));
    assert_eq!(r.message, "Brightness set to 42");
    assert_eq!(brightness_response(true, 0).message, "Brightness set to 0");
    assert_eq!(brightness_response(true, 100).message, "Brightness set to 100");
    let r = brightness_response(false, 42);
    assert!(!r.success);
    assert_eq!(r.data, Some(()));
    assert_eq!(r.message, "Error Setting Brightness");
}
