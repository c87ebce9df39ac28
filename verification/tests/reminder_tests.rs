use tray_core::reminder::{parse_time_of_day, reminder_tick, ReminderDecision, ReminderEngine, ReminderPolicy};

fn policy(enabled: bool, interval_minutes: u64, start: &str, end: &str, weekdays: &[u8]) -> ReminderPolicy {
    ReminderPolicy {
        enabled,
        interval_minutes,
        start_time: start.to_string(),
        end_time: end.to_string(),
        weekdays: weekdays.to_vec(),
    }
}

#[test]
fn parses_times_of_day() {
    assert_eq!(parse_time_of_day("00:00"), Some(0));
    assert_eq!(parse_time_of_day("09:00"), Some(540));
    assert_eq!(parse_time_of_day("17:00"), Some(1020));
    assert_eq!(parse_time_of_day("23:59"), Some(1439));
}

#[test]
fn rejects_malformed_times_of_day() {
    assert_eq!(parse_time_of_day("24:00"), None);
    assert_eq!(parse_time_of_day("12:60"), None);
    assert_eq!(parse_time_of_day("9:00"), None);
    assert_eq!(parse_time_of_day("09-00"), None);
    assert_eq!(parse_time_of_day(""), None);
    assert_eq!(parse_time_of_day("ab:cd"), None);
    assert_eq!(parse_time_of_day("09:001"), None);
}

#[test]
fn disabled_policy_starts_no_loop() {
    let mut e = ReminderEngine::new();
    let lp = e.configure(&policy(false, 30, "09:00", "17:00", &[1]));
    assert!(lp.is_none());
    assert!(e.policy.is_none());
}

#[test]
fn first_notification_is_never_interval_suppressed() {
    let mut e = ReminderEngine::new();
    let lp = e.configure(&policy(true, 30, "09:00", "17:00", &[1])).unwrap();
    let d = reminder_tick(&e, lp, false, false, 1, 600, 1_000_000);
    assert_eq!(d, ReminderDecision::Fire);
}

#[test]
fn interval_suppresses_within_thirty_minutes() {
    let mut e = ReminderEngine::new();
    let lp = e.configure(&policy(true, 30, "09:00", "17:00", &[1])).unwrap();
    let t = 1_000_000;
    e.record_fired(t);
    // Ten minutes later, every other condition satisfied: suppressed.
    let d = reminder_tick(&e, lp, false, false, 1, 610, t + 600);
    assert_eq!(d, ReminderDecision::Skip);
    // One second before the interval has passed: still suppressed.
    let d = reminder_tick(&e, lp, false, false, 1, 629, t + 1799);
    assert_eq!(d, ReminderDecision::Skip);
    // At exactly thirty minutes: due again.
    let d = reminder_tick(&e, lp, false, false, 1, 630, t + 1800);
    assert_eq!(d, ReminderDecision::Fire);
}

#[test]
fn active_timer_suppresses() {
    let mut e = ReminderEngine::new();
    let lp = e.configure(&policy(true, 30, "09:00", "17:00", &[1])).unwrap();
    let d = reminder_tick(&e, lp, false, true, 1, 600, 1_000_000);
    assert_eq!(d, ReminderDecision::Skip);
}

#[test]
fn disallowed_weekday_suppresses() {
    let mut e = ReminderEngine::new();
    let lp = e.configure(&policy(true, 30, "09:00", "17:00", &[1])).unwrap();
    // Sunday = 0 and Tuesday = 2 are not Monday = 1.
    assert_eq!(reminder_tick(&e, lp, false, false, 0, 600, 1_000_000), ReminderDecision::Skip);
    assert_eq!(reminder_tick(&e, lp, false, false, 2, 600, 1_000_000), ReminderDecision::Skip);
}

#[test]
fn outside_window_suppresses() {
    let mut e = ReminderEngine::new();
    let lp = e.configure(&policy(true, 30, "09:00", "17:00", &[1])).unwrap();
    // 08:59 and 17:01.
    assert_eq!(reminder_tick(&e, lp, false, false, 1, 539, 1_000_000), ReminderDecision::Skip);
    assert_eq!(reminder_tick(&e, lp, false, false, 1, 1021, 1_000_000), ReminderDecision::Skip);
    // The window is inclusive at both ends.
    assert_eq!(reminder_tick(&e, lp, false, false, 1, 540, 1_000_000), ReminderDecision::Fire);
    assert_eq!(reminder_tick(&e, lp, false, false, 1, 1020, 1_000_000), ReminderDecision::Fire);
}

#[test]
fn malformed_window_never_fires() {
    let mut e = ReminderEngine::new();
    let lp = e.configure(&policy(true, 30, "9:00", "17:00", &[1])).unwrap();
    for minute in [0u16, 540, 600, 1020, 1439] {
        assert_eq!(reminder_tick(&e, lp, false, false, 1, minute, 1_000_000), ReminderDecision::Skip);
    }
}

#[test]
fn reconfigure_resets_last_notification_and_supersedes() {
    let mut e = ReminderEngine::new();
    let lp1 = e.configure(&policy(true, 30, "09:00", "17:00", &[1])).unwrap();
    e.record_fired(1_000_000);
    let lp2 = e.configure(&policy(true, 30, "09:00", "17:00", &[1])).unwrap();
    assert!(e.last_fired_secs.is_none());
    // The old loop observes cancellation; the new one fires at once.
    assert_eq!(reminder_tick(&e, lp1, false, false, 1, 600, 1_000_060), ReminderDecision::Cancelled);
    assert_eq!(reminder_tick(&e, lp2, false, false, 1, 600, 1_000_060), ReminderDecision::Fire);
}

#[test]
fn stop_cancels_the_loop() {
    let mut e = ReminderEngine::new();
    let lp = e.configure(&policy(true, 30, "09:00", "17:00", &[1])).unwrap();
    e.stop();
    assert_eq!(reminder_tick(&e, lp, false, false, 1, 600, 1_000_000), ReminderDecision::Cancelled);
}

#[test]
fn stop_twice_is_a_no_op_and_keeps_the_rest() {
    let mut e = ReminderEngine::new();
    let _ = e.configure(&policy(true, 30, "09:00", "17:00", &[1])).unwrap();
    e.record_fired(42);
    e.stop();
    assert!(e.policy.is_none());
    let snap = (e.generation, e.last_fired_secs);
    e.stop();
    assert!(e.policy.is_none());
    assert_eq!((e.generation, e.last_fired_secs), snap);
}

#[test]
fn stop_signal_cancels_the_wake() {
    let mut e = ReminderEngine::new();
    let lp = e.configure(&policy(true, 30, "09:00", "17:00", &[1])).unwrap();
    assert_eq!(reminder_tick(&e, lp, true, false, 1, 600, 1_000_000), ReminderDecision::Cancelled);
}

#[test]
fn fires_once_per_interval_inside_the_window() {
    let mut e = ReminderEngine::new();
    let lp = e.configure(&policy(true, 30, "09:00", "17:00", &[1])).unwrap();
    let mut now = 1_000_000u64;
    let mut fired = 0;
    // Simulate two hours of one-minute wakes on a Monday at 10:00.
    for minute in 0..120u64 {
        let d = reminder_tick(&e, lp, false, false, 1, (600 + minute) as u16, now);
        if d == ReminderDecision::Fire {
            e.record_fired(now);
            fired += 1;
        }
        now += 60;
    }
    assert_eq!(fired, 4);
}
