//! The timer engine: a running session, its polling loop's per-tick decision,
//! and the superseding of older loops.
//!
//! The engine owns "is a timer running, since when" as a start timestamp, and
//! a generation counter. Each start bumps the generation and hands the new
//! polling loop a loop state carrying that generation; a loop whose
//! generation has been superseded observes cancellation on its next tick, so
//! at most one loop ever renders. A tick decides, in this order: cancellation
//! (stop signal, superseded generation, or cleared session), sleep detection
//! (a wall-clock gap of three polling intervals or more between wakes), idle
//! timeout, and finally a label render when the whole-minute elapsed value
//! changed.

use vstd::prelude::*;
use crate::idle::get_idle_time_seconds;
use crate::timefmt::{format_tray_time, spec_format_tray_time};

verus! {

/// Seconds between wakes of the timer polling loop.
pub const TIMER_POLL_SECS: u64 = 10;

/// A wall-clock gap of at least this many milliseconds between two wakes
/// (three polling intervals) is taken as the host having been suspended.
pub const SLEEP_GAP_MS: u64 = 3 * TIMER_POLL_SECS * 1000;

/// The timer engine's shared state: the running session's start timestamp
/// (milliseconds since the epoch), if any, and the generation of the loop
/// that currently owns the status surface.
#[derive(Clone, Copy)]
pub struct TimerEngine {
    pub start_time_ms: Option<u64>,
    pub generation: u64,
}

/// State local to one polling loop: the generation it was started under, its
/// idle-detection configuration, the minute value last rendered, and the
/// wall clock at its previous wake.
#[derive(Clone, Copy)]
pub struct TimerLoopState {
    pub generation: u64,
    pub idle_enabled: bool,
    pub idle_timeout_secs: u64,
    pub last_minutes: u64,
    pub last_wake_ms: u64,
}

/// What a tick of the polling loop does.
pub enum TimerTick {
    /// Terminate silently: stop requested, loop superseded, or session gone.
    Cancelled,
    /// The host slept for `gap_secs`; emit the sleep event and terminate.
    SleepDetected { gap_secs: u64 },
    /// The user has been idle for `idle_secs`; emit the idle event and
    /// terminate.
    IdleTimeout { idle_secs: u64 },
    /// Show `title` on the status surface and keep polling.
    Render { title: String },
    /// Nothing to do this tick; keep polling.
    Quiet,
}

/// The variant of [`TimerTick`] a tick takes, as a pure decision.
#[derive(Clone, Copy, Debug, PartialEq, Eq, Structural)]
pub enum TickDecision {
    Cancelled,
    SleepDetected,
    IdleTimeout,
    Render,
    Quiet,
}

/// Whole seconds elapsed from `start_ms` to `now_ms`, zero when the clock
/// reads earlier than the start.
pub open spec fn spec_elapsed_secs(start_ms: u64, now_ms: u64) -> int {
    if now_ms >= start_ms {
        (now_ms - start_ms) / 1000
    } else {
        0
    }
}

/// Wall-clock gap since the loop's previous wake, zero when the clock went
/// backwards.
pub open spec fn spec_sleep_gap_ms(lp: TimerLoopState, now_ms: u64) -> int {
    if now_ms >= lp.last_wake_ms {
        now_ms - lp.last_wake_ms
    } else {
        0
    }
}

/// A tick is live when no stop was signalled, the loop's generation is still
/// the engine's, and a session is running.
pub open spec fn spec_tick_live(e: TimerEngine, lp: TimerLoopState, cancelled: bool) -> bool {
    &&& !cancelled
    &&& lp.generation == e.generation
    &&& e.start_time_ms is Some
}

/// Does the reported idle time meet the loop's idle timeout?
pub open spec fn spec_idle_hit(lp: TimerLoopState, idle_secs: Option<u64>) -> bool {
    &&& lp.idle_enabled
    &&& idle_secs matches Some(s) && s >= lp.idle_timeout_secs
}

/// The decision a tick takes, in order: cancellation, sleep detection, idle
/// timeout, then a render exactly when the whole-minute value changed.
pub open spec fn spec_timer_decision(
    e: TimerEngine,
    lp: TimerLoopState,
    cancelled: bool,
    now_ms: u64,
    idle_secs: Option<u64>,
) -> TickDecision {
    match e.start_time_ms {
        None => TickDecision::Cancelled,
        Some(start) => if cancelled || lp.generation != e.generation {
            TickDecision::Cancelled
        } else if spec_sleep_gap_ms(lp, now_ms) >= SLEEP_GAP_MS {
            TickDecision::SleepDetected
        } else if spec_idle_hit(lp, idle_secs) {
            TickDecision::IdleTimeout
        } else if spec_elapsed_secs(start, now_ms) / 60 != lp.last_minutes {
            TickDecision::Render
        } else {
            TickDecision::Quiet
        },
    }
}

/// The engine with its session cleared and its generation kept.
pub open spec fn spec_stop(e: TimerEngine) -> TimerEngine {
    TimerEngine { start_time_ms: None, generation: e.generation }
}

/// The title a render decision shows: the elapsed time of the running
/// session, formatted `H:MM`.
pub open spec fn spec_render_title(e: TimerEngine, now_ms: u64) -> Seq<char> {
    match e.start_time_ms {
        Some(start) => spec_format_tray_time(spec_elapsed_secs(start, now_ms) as nat),
        None => Seq::<char>::empty(),
    }
}

/// Whole minutes elapsed of the running session.
pub open spec fn spec_current_minutes(e: TimerEngine, now_ms: u64) -> int {
    match e.start_time_ms {
        Some(start) => spec_elapsed_secs(start, now_ms) / 60,
        None => 0,
    }
}

impl TimerEngine {
    /// A fresh engine: no session, generation zero.
    pub fn new() -> (e: TimerEngine)
        ensures
            e.start_time_ms is None,
            e.generation == 0,
    {
        TimerEngine { start_time_ms: None, generation: 0 }
    }

    /// Start a session: supersede any prior loop by bumping the generation,
    /// record the start timestamp, and hand back the new loop's state together
    /// with the title to render at once.
    pub fn start(
        &mut self,
        start_time_ms: u64,
        now_ms: u64,
        idle_enabled: bool,
        idle_timeout_minutes: u64,
    ) -> (r: (TimerLoopState, String))
        requires
            old(self).generation < u64::MAX,
            idle_timeout_minutes <= u64::MAX / 60,
        ensures
            final(self).start_time_ms == Some(start_time_ms),
            final(self).generation == old(self).generation + 1,
            r.0.generation == final(self).generation,
            r.0.idle_enabled == idle_enabled,
            r.0.idle_timeout_secs == idle_timeout_minutes * 60,
            r.0.last_wake_ms == now_ms,
            r.0.last_minutes == spec_elapsed_secs(start_time_ms, now_ms) / 60,
            r.1@ == spec_format_tray_time(spec_elapsed_secs(start_time_ms, now_ms) as nat),
    {
        self.generation = self.generation + 1;
        self.start_time_ms = Some(start_time_ms);
        let elapsed_secs = if now_ms >= start_time_ms {
            (now_ms - start_time_ms) / 1000
        } else {
            0
        };
        let title = format_tray_time(elapsed_secs);
        let lp = TimerLoopState {
            generation: self.generation,
            idle_enabled,
            idle_timeout_secs: idle_timeout_minutes * 60,
            last_minutes: elapsed_secs / 60,
            last_wake_ms: now_ms,
        };
        (lp, title)
    }

    /// Stop: clear the session and leave the generation alone. The stale
    /// generation makes any still-running loop observe cancellation on its
    /// next tick; stopping an already stopped engine changes nothing.
    pub fn stop(&mut self)
        ensures
            *final(self) == spec_stop(*old(self)),
    {
        self.start_time_ms = None;
    }

    /// Clear the session on behalf of the loop of generation `generation`
    /// (after a terminal tick). A superseded loop's late clear is ignored, so
    /// an old loop's tail can never clobber a newer session.
    pub fn clear_if_generation(&mut self, generation: u64)
        ensures
            old(self).generation == generation ==> *final(self) == spec_stop(*old(self)),
            old(self).generation != generation ==> *final(self) == *old(self),
    {
        if self.generation == generation {
            self.start_time_ms = None;
        }
    }
}

/// One tick of the timer polling loop, as a pure decision over the shared
/// engine state, the loop's own state, the stop signal, the wall clock, and
/// the reported idle time. Returns what to do and the loop state for the
/// next tick.
pub fn timer_tick(
    engine: &TimerEngine,
    lp: TimerLoopState,
    cancelled: bool,
    now_ms: u64,
    idle_secs: Option<u64>,
) -> (r: (TimerTick, TimerLoopState))
    ensures
        spec_timer_decision(*engine, lp, cancelled, now_ms, idle_secs) == TickDecision::Cancelled
            ==> r.0 is Cancelled,
        spec_timer_decision(*engine, lp, cancelled, now_ms, idle_secs)
            == TickDecision::SleepDetected ==> (r.0 matches TimerTick::SleepDetected { gap_secs }
            && gap_secs == spec_sleep_gap_ms(lp, now_ms) / 1000),
        spec_timer_decision(*engine, lp, cancelled, now_ms, idle_secs) == TickDecision::IdleTimeout
            ==> (r.0 matches TimerTick::IdleTimeout { idle_secs: s } && idle_secs == Some(s)),
        spec_timer_decision(*engine, lp, cancelled, now_ms, idle_secs) == TickDecision::Render
            ==> (r.0 matches TimerTick::Render { title } && title@ == spec_render_title(
            *engine,
            now_ms,
        )),
        spec_timer_decision(*engine, lp, cancelled, now_ms, idle_secs) == TickDecision::Quiet
            ==> r.0 is Quiet,
        r.1.generation == lp.generation,
        r.1.idle_enabled == lp.idle_enabled,
        r.1.idle_timeout_secs == lp.idle_timeout_secs,
        r.1.last_wake_ms == now_ms,
        spec_timer_decision(*engine, lp, cancelled, now_ms, idle_secs) == TickDecision::Render
            || spec_timer_decision(*engine, lp, cancelled, now_ms, idle_secs)
            == TickDecision::Quiet ==> r.1.last_minutes == spec_current_minutes(*engine, now_ms),
        spec_timer_decision(*engine, lp, cancelled, now_ms, idle_secs) == TickDecision::Cancelled
            || spec_timer_decision(*engine, lp, cancelled, now_ms, idle_secs)
            == TickDecision::SleepDetected || spec_timer_decision(
            *engine,
            lp,
            cancelled,
            now_ms,
            idle_secs,
        ) == TickDecision::IdleTimeout ==> r.1.last_minutes == lp.last_minutes,
{
    let mut next = lp;
    next.last_wake_ms = now_ms;
    if cancelled || lp.generation != engine.generation {
        return (TimerTick::Cancelled, next);
    }
    let start = match engine.start_time_ms {
        Some(s) => s,
        None => {
            return (TimerTick::Cancelled, next);
        },
    };
    let gap_ms = if now_ms >= lp.last_wake_ms {
        now_ms - lp.last_wake_ms
    } else {
        0
    };
    if gap_ms >= SLEEP_GAP_MS {
        return (TimerTick::SleepDetected { gap_secs: gap_ms / 1000 }, next);
    }
    if lp.idle_enabled {
        if let Some(s) = idle_secs {
            if s >= lp.idle_timeout_secs {
                return (TimerTick::IdleTimeout { idle_secs: s }, next);
            }
        }
    }
    let elapsed_secs = if now_ms >= start {
        (now_ms - start) / 1000
    } else {
        0
    };
    let current_minutes = elapsed_secs / 60;
    next.last_minutes = current_minutes;
    if current_minutes != lp.last_minutes {
        (TimerTick::Render { title: format_tray_time(elapsed_secs) }, next)
    } else {
        (TimerTick::Quiet, next)
    }
}

/// One wake of the polling loop, idle query included. The idle time depends
/// on the machine at the moment of the call, so the contract states what
/// holds of every outcome: a live wake never terminates silently, a quiet
/// wake keeps the rendered minute, only a live, non-slept tick with idle
/// detection enabled may report an idle timeout, and every other decision is
/// exactly that of [`timer_tick`].
pub fn timer_poll(engine: &TimerEngine, lp: TimerLoopState, cancelled: bool, now_ms: u64) -> (r: (
    TimerTick,
    TimerLoopState,
))
    ensures
        !spec_tick_live(*engine, lp, cancelled) ==> r.0 is Cancelled,
        spec_tick_live(*engine, lp, cancelled) ==> !(r.0 is Cancelled),
        r.0 is Quiet ==> r.1.last_minutes == lp.last_minutes,
        spec_tick_live(*engine, lp, cancelled) && spec_sleep_gap_ms(lp, now_ms) >= SLEEP_GAP_MS
            ==> (r.0 matches TimerTick::SleepDetected { gap_secs } && gap_secs
            == spec_sleep_gap_ms(lp, now_ms) / 1000),
        r.0 matches TimerTick::IdleTimeout { idle_secs } ==> (spec_tick_live(*engine, lp, cancelled)
            && spec_sleep_gap_ms(lp, now_ms) < SLEEP_GAP_MS && lp.idle_enabled && idle_secs
            >= lp.idle_timeout_secs),
        spec_tick_live(*engine, lp, cancelled) && spec_sleep_gap_ms(lp, now_ms) < SLEEP_GAP_MS
            && !lp.idle_enabled ==> (if spec_current_minutes(*engine, now_ms) != lp.last_minutes {
            r.0 is Render
        } else {
            r.0 is Quiet
        }),
        r.0 matches TimerTick::Render { title } ==> (spec_tick_live(*engine, lp, cancelled)
            && title@ == spec_render_title(*engine, now_ms) && r.1.last_minutes
            == spec_current_minutes(*engine, now_ms)),
        r.1.generation == lp.generation,
        r.1.idle_enabled == lp.idle_enabled,
        r.1.idle_timeout_secs == lp.idle_timeout_secs,
        r.1.last_wake_ms == now_ms,
{
    let idle_secs = if lp.idle_enabled {
        get_idle_time_seconds()
    } else {
        None
    };
    timer_tick(engine, lp, cancelled, now_ms, idle_secs)
}

/// Stopping is idempotent: a second stop leaves exactly the state the first
/// one left, so it is a no-op.
pub proof fn lemma_stop_idempotent(e: TimerEngine)
    ensures
        spec_stop(spec_stop(e)) == spec_stop(e),
{
}

/// Starting supersedes: a tick of a loop whose generation is not the
/// engine's current one can only observe cancellation, never render. Since
/// every start bumps the generation, only the loop of the newest start ever
/// renders, and what it renders is computed from that start's timestamp.
pub proof fn lemma_stale_loop_cancelled(
    e: TimerEngine,
    lp: TimerLoopState,
    cancelled: bool,
    now_ms: u64,
    idle_secs: Option<u64>,
)
    requires
        lp.generation != e.generation,
    ensures
        spec_timer_decision(e, lp, cancelled, now_ms, idle_secs) == TickDecision::Cancelled,
{
}

/// A render decision only happens on a live tick: the loop is the current
/// generation and a session is running.
pub proof fn lemma_render_is_live(
    e: TimerEngine,
    lp: TimerLoopState,
    cancelled: bool,
    now_ms: u64,
    idle_secs: Option<u64>,
)
    requires
        spec_timer_decision(e, lp, cancelled, now_ms, idle_secs) == TickDecision::Render,
    ensures
        spec_tick_live(e, lp, cancelled),
{
}

/// The sleep threshold is sharp: a wake-to-wake gap under three polling
/// intervals never yields sleep detection, and on a live tick a gap of three
/// intervals or more always does.
pub proof fn lemma_sleep_threshold(
    e: TimerEngine,
    lp: TimerLoopState,
    cancelled: bool,
    now_ms: u64,
    idle_secs: Option<u64>,
)
    ensures
        spec_sleep_gap_ms(lp, now_ms) < SLEEP_GAP_MS ==> spec_timer_decision(
            e,
            lp,
            cancelled,
            now_ms,
            idle_secs,
        ) != TickDecision::SleepDetected,
        spec_tick_live(e, lp, cancelled) && spec_sleep_gap_ms(lp, now_ms) >= SLEEP_GAP_MS
            ==> spec_timer_decision(e, lp, cancelled, now_ms, idle_secs)
            == TickDecision::SleepDetected,
{
}

/// A terminal event fires at most once: once the session is cleared, every
/// further tick of any loop observes cancellation, so no second sleep or
/// idle event can be emitted for the same session.
pub proof fn lemma_cleared_session_cancelled(
    e: TimerEngine,
    lp: TimerLoopState,
    cancelled: bool,
    now_ms: u64,
    idle_secs: Option<u64>,
)
    requires
        e.start_time_ms is None,
    ensures
        spec_timer_decision(e, lp, cancelled, now_ms, idle_secs) == TickDecision::Cancelled,
{
}

} // verus!
