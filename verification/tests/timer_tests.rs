use tray_core::timer::{timer_poll, timer_tick, TimerEngine, TimerTick};

#[test]
fn start_records_session_and_renders_initial_title() {
    let mut e = TimerEngine::new();
    let (lp, title) = e.start(0, 3_661_000, false, 5);
    assert_eq!(e.start_time_ms, Some(0));
    assert_eq!(e.generation, 1);
    assert_eq!(lp.generation, 1);
    assert_eq!(title, "1:01");
}

#[test]
fn start_before_start_timestamp_renders_zero() {
    let mut e = TimerEngine::new();
    let (_lp, title) = e.start(10_000, 5_000, false, 5);
    assert_eq!(title, "0:00");
}

#[test]
fn stop_clears_session() {
    let mut e = TimerEngine::new();
    let _ = e.start(0, 0, false, 5);
    e.stop();
    assert_eq!(e.start_time_ms, None);
    assert_eq!(e.generation, 1);
}

#[test]
fn stop_twice_is_a_no_op_the_second_time() {
    let mut e = TimerEngine::new();
    let _ = e.start(0, 0, false, 5);
    e.stop();
    let first = (e.start_time_ms, e.generation);
    e.stop();
    assert_eq!((e.start_time_ms, e.generation), first);
}

#[test]
fn tick_renders_when_minute_changes() {
    let mut e = TimerEngine::new();
    let (lp, _) = e.start(0, 55_000, false, 5);
    let (tick, next) = timer_tick(&e, lp, false, 65_000, None);
    match tick {
        TimerTick::Render { title } => assert_eq!(title, "0:01"),
        _ => panic!("expected a render"),
    }
    assert_eq!(next.last_minutes, 1);
    assert_eq!(next.last_wake_ms, 65_000);
}

#[test]
fn tick_is_quiet_within_the_same_minute() {
    let mut e = TimerEngine::new();
    let (lp, _) = e.start(0, 5_000, false, 5);
    let (tick, _) = timer_tick(&e, lp, false, 15_000, None);
    assert!(matches!(tick, TimerTick::Quiet));
}

#[test]
fn superseding_start_cancels_the_prior_loop() {
    let mut e = TimerEngine::new();
    let (lp1, _) = e.start(0, 0, false, 5);
    let (lp2, _) = e.start(1_000_000, 1_040_000, false, 5);
    // The old loop wakes after the new start: it must terminate silently,
    // never render.
    let (old_tick, _) = timer_tick(&e, lp1, false, 1_065_000, None);
    assert!(matches!(old_tick, TimerTick::Cancelled));
    // The new loop renders, and from the new session's start timestamp.
    let (new_tick, _) = timer_tick(&e, lp2, false, 1_065_000, None);
    match new_tick {
        TimerTick::Render { title } => assert_eq!(title, "0:01"),
        _ => panic!("expected a render from the latest session"),
    }
}

#[test]
fn stop_signal_cancels_the_tick() {
    let mut e = TimerEngine::new();
    let (lp, _) = e.start(0, 0, false, 5);
    let (tick, _) = timer_tick(&e, lp, true, 65_000, None);
    assert!(matches!(tick, TimerTick::Cancelled));
}

#[test]
fn cleared_session_cancels_the_tick() {
    let mut e = TimerEngine::new();
    let (lp, _) = e.start(0, 0, false, 5);
    e.stop();
    let (tick, _) = timer_tick(&e, lp, false, 65_000, None);
    assert!(matches!(tick, TimerTick::Cancelled));
}

#[test]
fn short_gap_does_not_trigger_sleep_detection() {
    let mut e = TimerEngine::new();
    let (lp, _) = e.start(0, 0, false, 5);
    // 29.999 seconds, just under three 10-second polling intervals.
    let (tick, _) = timer_tick(&e, lp, false, 29_999, None);
    assert!(!matches!(tick, TimerTick::SleepDetected { .. }));
}

#[test]
fn long_gap_triggers_sleep_detection_once_and_clears_the_session() {
    let mut e = TimerEngine::new();
    let (lp, _) = e.start(0, 0, false, 5);
    let (tick, next) = timer_tick(&e, lp, false, 30_000, None);
    match tick {
        TimerTick::SleepDetected { gap_secs } => assert_eq!(gap_secs, 30),
        _ => panic!("expected sleep detection"),
    }
    // The loop clears the session on a terminal tick; afterwards every tick
    // observes cancellation, so no second sleep event can fire.
    e.clear_if_generation(lp.generation);
    assert_eq!(e.start_time_ms, None);
    let (again, _) = timer_tick(&e, next, false, 60_001, None);
    assert!(matches!(again, TimerTick::Cancelled));
}

#[test]
fn sleep_check_takes_precedence_over_idle() {
    let mut e = TimerEngine::new();
    let (lp, _) = e.start(0, 0, true, 1);
    let (tick, _) = timer_tick(&e, lp, false, 30_000, Some(100));
    assert!(matches!(tick, TimerTick::SleepDetected { .. }));
}

#[test]
fn idle_timeout_fires_when_idle_meets_the_threshold() {
    let mut e = TimerEngine::new();
    let (lp, _) = e.start(0, 0, true, 5);
    let (tick, _) = timer_tick(&e, lp, false, 10_000, Some(300));
    match tick {
        TimerTick::IdleTimeout { idle_secs } => assert_eq!(idle_secs, 300),
        _ => panic!("expected an idle timeout"),
    }
}

#[test]
fn idle_below_threshold_does_not_fire() {
    let mut e = TimerEngine::new();
    let (lp, _) = e.start(0, 0, true, 5);
    let (tick, _) = timer_tick(&e, lp, false, 10_000, Some(299));
    assert!(!matches!(tick, TimerTick::IdleTimeout { .. }));
}

#[test]
fn idle_query_failure_is_no_idle() {
    let mut e = TimerEngine::new();
    let (lp, _) = e.start(0, 0, true, 5);
    let (tick, _) = timer_tick(&e, lp, false, 10_000, None);
    assert!(matches!(tick, TimerTick::Quiet));
}

#[test]
fn idle_disabled_ignores_reported_idle() {
    let mut e = TimerEngine::new();
    let (lp, _) = e.start(0, 0, false, 5);
    let (tick, _) = timer_tick(&e, lp, false, 10_000, Some(10_000_000));
    assert!(matches!(tick, TimerTick::Quiet));
}

#[test]
fn poll_with_idle_disabled_never_reports_idle() {
    let mut e = TimerEngine::new();
    let (lp, _) = e.start(0, 5_000, false, 5);
    let (tick, _) = timer_poll(&e, lp, false, 15_000);
    assert!(matches!(tick, TimerTick::Quiet));
}

#[test]
fn poll_queries_the_real_idle_source() {
    let mut e = TimerEngine::new();
    // An enormous timeout: whatever the OS reports, no idle timeout is due,
    // and with the wake inside the same minute the tick is quiet.
    let (lp, _) = e.start(0, 5_000, true, u64::MAX / 60);
    let (tick, _) = timer_poll(&e, lp, false, 15_000);
    assert!(matches!(tick, TimerTick::Quiet));
}

#[test]
fn clear_from_a_superseded_loop_is_ignored() {
    let mut e = TimerEngine::new();
    let (lp1, _) = e.start(0, 0, false, 5);
    let (_lp2, _) = e.start(500, 500, false, 5);
    e.clear_if_generation(lp1.generation);
    assert_eq!(e.start_time_ms, Some(500));
}
