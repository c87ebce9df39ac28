//! The reminder scheduler: an enable/interval/window/weekday policy and the
//! per-tick firing decision of its polling loop.
//!
//! The scheduler owns at most one active policy and the wall-clock second of
//! the most recently fired notification. Its loop wakes once a minute; a wake
//! skips the notification (but keeps looping) when a timer session is active,
//! the weekday is not allowed, the time of day is outside the window, or the
//! last notification is younger than the interval. The first notification of
//! a loop is never suppressed by the interval rule. A malformed `HH:MM`
//! window string makes the window never match, so such a policy never fires.

use vstd::prelude::*;
use crate::timefmt::{digit_val, spec_digit_val, spec_is_digit};

verus! {

/// Seconds between wakes of the reminder polling loop.
pub const REMINDER_POLL_SECS: u64 = 60;

/// A reminder policy as configured by the UI: whether reminders are on, the
/// minimum interval between notifications in minutes, the daily window as
/// `HH:MM` strings, and the allowed weekdays (Sunday = 0 .. Saturday = 6).
pub struct ReminderPolicy {
    pub enabled: bool,
    pub interval_minutes: u64,
    pub start_time: String,
    pub end_time: String,
    pub weekdays: Vec<u8>,
}

/// The stored form of an enabled policy: the interval in seconds and the
/// window bounds parsed to minutes of the day (`None` for a string that did
/// not parse, which makes the window never match).
pub struct ActivePolicy {
    pub interval_secs: u64,
    pub window_start_min: Option<u16>,
    pub window_end_min: Option<u16>,
    pub weekdays: Vec<u8>,
}

/// The reminder scheduler's state: the active policy if enabled, the second
/// of the last fired notification, and the generation of the loop that is
/// allowed to fire.
pub struct ReminderEngine {
    pub policy: Option<ActivePolicy>,
    pub last_fired_secs: Option<u64>,
    pub generation: u64,
}

/// State local to one reminder loop: the generation it was started under.
#[derive(Clone, Copy)]
pub struct ReminderLoopState {
    pub generation: u64,
}

/// What a wake of the reminder loop does.
#[derive(Clone, Copy, Debug, PartialEq, Eq, Structural)]
pub enum ReminderDecision {
    /// Terminate the loop: stopped, superseded, or no policy.
    Cancelled,
    /// Fire no notification this wake, keep looping.
    Skip,
    /// Fire the notification and record the time.
    Fire,
}

/// A time of day `HH:MM` (24-hour, both parts two digits) as a minute of the
/// day; anything else is rejected.
pub open spec fn spec_parse_time_of_day(s: Seq<char>) -> Option<u16> {
    if s.len() == 5 && s[2] == ':' && spec_is_digit(s[0]) && spec_is_digit(s[1]) && spec_is_digit(
        s[3],
    ) && spec_is_digit(s[4]) {
        let hh = spec_digit_val(s[0]) * 10 + spec_digit_val(s[1]);
        let mm = spec_digit_val(s[3]) * 10 + spec_digit_val(s[4]);
        if hh < 24 && mm < 60 {
            Some((hh * 60 + mm) as u16)
        } else {
            None
        }
    } else {
        None
    }
}

/// Parse a `HH:MM` time of day into a minute of the day.
pub fn parse_time_of_day(s: &str) -> (r: Option<u16>)
    ensures
        r == spec_parse_time_of_day(s@),
{
    let n = s.unicode_len();
    if n != 5 {
        return None;
    }
    if s.get_char(2) != ':' {
        return None;
    }
    let d0 = digit_val(s.get_char(0));
    let d1 = digit_val(s.get_char(1));
    let d3 = digit_val(s.get_char(3));
    let d4 = digit_val(s.get_char(4));
    if let (Some(h0), Some(h1), Some(m0), Some(m1)) = (d0, d1, d3, d4) {
        let hh: u16 = h0 as u16 * 10 + h1 as u16;
        let mm: u16 = m0 as u16 * 10 + m1 as u16;
        if hh < 24 && mm < 60 {
            Some(hh * 60 + mm)
        } else {
            None
        }
    } else {
        None
    }
}

/// Is the minute of the day inside the policy's window, both ends inclusive?
/// False whenever either bound did not parse.
pub open spec fn spec_in_window(p: ActivePolicy, minute_of_day: u16) -> bool {
    &&& p.window_start_min matches Some(s) && s <= minute_of_day
    &&& p.window_end_min matches Some(e) && minute_of_day <= e
}

/// Has the interval passed since the last notification? True when none was
/// fired yet: the first notification is never suppressed by this rule.
pub open spec fn spec_interval_ok(last_fired: Option<u64>, interval_secs: u64, now_secs: u64) -> bool {
    match last_fired {
        None => true,
        Some(t) => now_secs >= t + interval_secs,
    }
}

/// A wake is live when no stop was signalled, the loop's generation is still
/// the engine's, and a policy is active.
pub open spec fn spec_reminder_live(e: ReminderEngine, lp: ReminderLoopState, cancelled: bool) -> bool {
    &&& !cancelled
    &&& lp.generation == e.generation
    &&& e.policy is Some
}

/// The decision of one wake, its suppression rules in order: an active timer
/// session, a disallowed weekday, a time outside the window, and a
/// notification younger than the interval each skip this wake; otherwise the
/// notification fires.
pub open spec fn spec_reminder_decision(
    e: ReminderEngine,
    lp: ReminderLoopState,
    cancelled: bool,
    timer_active: bool,
    weekday: u8,
    minute_of_day: u16,
    now_secs: u64,
) -> ReminderDecision {
    match e.policy {
        None => ReminderDecision::Cancelled,
        Some(p) => if cancelled || lp.generation != e.generation {
            ReminderDecision::Cancelled
        } else if timer_active {
            ReminderDecision::Skip
        } else if !p.weekdays@.contains(weekday) {
            ReminderDecision::Skip
        } else if !spec_in_window(p, minute_of_day) {
            ReminderDecision::Skip
        } else if !spec_interval_ok(e.last_fired_secs, p.interval_secs, now_secs) {
            ReminderDecision::Skip
        } else {
            ReminderDecision::Fire
        },
    }
}

fn copy_weekdays(src: &Vec<u8>) -> (r: Vec<u8>)
    ensures
        r@ == src@,
{
    let mut r: Vec<u8> = Vec::new();
    let mut i: usize = 0;
    while i < src.len()
        invariant
            i <= src.len(),
            r@ == src@.take(i as int),
        decreases src.len() - i,
    {
        r.push(src[i]);
        proof {
            assert(r@ =~= src@.take(i as int + 1));
        }
        i = i + 1;
    }
    proof {
        assert(src@.take(src@.len() as int) =~= src@);
    }
    r
}

fn weekday_allowed(days: &Vec<u8>, weekday: u8) -> (r: bool)
    ensures
        r == days@.contains(weekday),
{
    let mut i: usize = 0;
    while i < days.len()
        invariant
            i <= days.len(),
            forall|j: int| 0 <= j < i ==> days@[j] != weekday,
        decreases days.len() - i,
    {
        if days[i] == weekday {
            return true;
        }
        i = i + 1;
    }
    false
}

impl ReminderEngine {
    /// A fresh scheduler: no policy, nothing fired, generation zero.
    pub fn new() -> (e: ReminderEngine)
        ensures
            e.policy is None,
            e.last_fired_secs is None,
            e.generation == 0,
    {
        ReminderEngine { policy: None, last_fired_secs: None, generation: 0 }
    }

    /// Replace the policy wholesale. Any prior loop is superseded by the
    /// generation bump. A disabled policy clears the stored one and starts no
    /// loop; an enabled one is parsed, stored, resets the last-notification
    /// time, and hands back the state for a new loop.
    pub fn configure(&mut self, policy: &ReminderPolicy) -> (r: Option<ReminderLoopState>)
        requires
            old(self).generation < u64::MAX,
            policy.interval_minutes <= u64::MAX / 60,
        ensures
            final(self).generation == old(self).generation + 1,
            !policy.enabled ==> final(self).policy is None && r is None
                && final(self).last_fired_secs == old(self).last_fired_secs,
            policy.enabled ==> (final(self).policy matches Some(p) && p.interval_secs
                == policy.interval_minutes * 60 && p.window_start_min == spec_parse_time_of_day(
                policy.start_time@,
            ) && p.window_end_min == spec_parse_time_of_day(policy.end_time@) && p.weekdays@
                == policy.weekdays@),
            policy.enabled ==> final(self).last_fired_secs is None && (r matches Some(l)
                && l.generation == final(self).generation),
    {
        self.generation = self.generation + 1;
        if !policy.enabled {
            self.policy = None;
            return None;
        }
        let window_start_min = parse_time_of_day(policy.start_time.as_str());
        let window_end_min = parse_time_of_day(policy.end_time.as_str());
        self.policy = Some(
            ActivePolicy {
                interval_secs: policy.interval_minutes * 60,
                window_start_min,
                window_end_min,
                weekdays: copy_weekdays(&policy.weekdays),
            },
        );
        self.last_fired_secs = None;
        Some(ReminderLoopState { generation: self.generation })
    }

    /// Disable reminders: clear the policy. Every wake of any loop then
    /// observes cancellation (the decision checks the policy first), so no
    /// generation bump is needed, and stopping an already stopped scheduler
    /// changes nothing.
    pub fn stop(&mut self)
        ensures
            final(self).policy is None,
            final(self).generation == old(self).generation,
            final(self).last_fired_secs == old(self).last_fired_secs,
    {
        self.policy = None;
    }

    /// Record that the notification fired now.
    pub fn record_fired(&mut self, now_secs: u64)
        ensures
            final(self).policy == old(self).policy,
            final(self).generation == old(self).generation,
            final(self).last_fired_secs == Some(now_secs),
    {
        self.last_fired_secs = Some(now_secs);
    }
}

/// One wake of the reminder loop, as a pure decision over the scheduler
/// state, the loop's generation, the stop signal, whether a timer session is
/// active, and the clock readings (weekday with Sunday = 0, minute of the
/// day, wall-clock second).
pub fn reminder_tick(
    engine: &ReminderEngine,
    lp: ReminderLoopState,
    cancelled: bool,
    timer_active: bool,
    weekday: u8,
    minute_of_day: u16,
    now_secs: u64,
) -> (r: ReminderDecision)
    ensures
        r == spec_reminder_decision(
            *engine,
            lp,
            cancelled,
            timer_active,
            weekday,
            minute_of_day,
            now_secs,
        ),
{
    let p = match &engine.policy {
        Some(p) => p,
        None => {
            return ReminderDecision::Cancelled;
        },
    };
    if cancelled || lp.generation != engine.generation {
        return ReminderDecision::Cancelled;
    }
    if timer_active {
        return ReminderDecision::Skip;
    }
    if !weekday_allowed(&p.weekdays, weekday) {
        return ReminderDecision::Skip;
    }
    let in_window = match (p.window_start_min, p.window_end_min) {
        (Some(s), Some(e)) => s <= minute_of_day && minute_of_day <= e,
        _ => false,
    };
    if !in_window {
        return ReminderDecision::Skip;
    }
    let interval_ok = match engine.last_fired_secs {
        None => true,
        Some(t) => now_secs >= t && now_secs - t >= p.interval_secs,
    };
    if !interval_ok {
        return ReminderDecision::Skip;
    }
    ReminderDecision::Fire
}

/// Interval suppression: after a notification fired at `t`, no wake before
/// `t` plus the interval fires again, whatever the other conditions say.
pub proof fn lemma_interval_suppression(
    e: ReminderEngine,
    lp: ReminderLoopState,
    cancelled: bool,
    timer_active: bool,
    weekday: u8,
    minute_of_day: u16,
    now_secs: u64,
)
    requires
        e.policy matches Some(p) && e.last_fired_secs matches Some(t) && now_secs < t
            + p.interval_secs,
    ensures
        spec_reminder_decision(e, lp, cancelled, timer_active, weekday, minute_of_day, now_secs)
            != ReminderDecision::Fire,
{
}

/// Weekday gating: a weekday outside the policy's set never fires.
pub proof fn lemma_weekday_gate(
    e: ReminderEngine,
    lp: ReminderLoopState,
    cancelled: bool,
    timer_active: bool,
    weekday: u8,
    minute_of_day: u16,
    now_secs: u64,
)
    requires
        e.policy matches Some(p) && !p.weekdays@.contains(weekday),
    ensures
        spec_reminder_decision(e, lp, cancelled, timer_active, weekday, minute_of_day, now_secs)
            != ReminderDecision::Fire,
{
}

/// Window gating: a time of day outside the window never fires; in
/// particular a window bound that did not parse never fires.
pub proof fn lemma_window_gate(
    e: ReminderEngine,
    lp: ReminderLoopState,
    cancelled: bool,
    timer_active: bool,
    weekday: u8,
    minute_of_day: u16,
    now_secs: u64,
)
    requires
        e.policy matches Some(p) && !spec_in_window(p, minute_of_day),
    ensures
        spec_reminder_decision(e, lp, cancelled, timer_active, weekday, minute_of_day, now_secs)
            != ReminderDecision::Fire,
{
}

/// A running timer session always suppresses the notification.
pub proof fn lemma_timer_active_suppresses(
    e: ReminderEngine,
    lp: ReminderLoopState,
    cancelled: bool,
    weekday: u8,
    minute_of_day: u16,
    now_secs: u64,
)
    ensures
        spec_reminder_decision(e, lp, cancelled, true, weekday, minute_of_day, now_secs)
            != ReminderDecision::Fire,
{
}

/// Due notifications fire: on a live wake with no timer session, an allowed
/// weekday, a time inside the window, and the interval passed (or nothing
/// fired yet), the decision is to fire.
pub proof fn lemma_fire_when_due(
    e: ReminderEngine,
    lp: ReminderLoopState,
    cancelled: bool,
    timer_active: bool,
    weekday: u8,
    minute_of_day: u16,
    now_secs: u64,
)
    requires
        spec_reminder_live(e, lp, cancelled),
        !timer_active,
        e.policy matches Some(p) && p.weekdays@.contains(weekday) && spec_in_window(
            p,
            minute_of_day,
        ) && spec_interval_ok(e.last_fired_secs, p.interval_secs, now_secs),
    ensures
        spec_reminder_decision(e, lp, cancelled, timer_active, weekday, minute_of_day, now_secs)
            == ReminderDecision::Fire,
{
}

} // verus!
