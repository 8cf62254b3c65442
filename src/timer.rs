use vstd::prelude::*;

verus! {

/// The phase the timer is in.
#[derive(Debug, Clone, Copy, PartialEq, Eq, Structural)]
pub enum TimerState {
    Idle,
    Work,
    ShortBreak,
    LongBreak,
    Paused,
}

/// Durations (in seconds) and auto-transition policy of the timer.
#[derive(Debug, Clone, Copy, PartialEq, Eq, Structural)]
pub struct TimerConfig {
    pub work_duration: u32,
    pub short_break_duration: u32,
    pub long_break_duration: u32,
    pub sessions_until_long_break: u32,
    pub auto_start_breaks: bool,
    pub auto_start_pomodoros: bool,
}

/// 25 minutes of work, 5 minutes of short break, 15 of long break, a long
/// break after every 4 work sessions, no auto-start.
pub open spec fn default_config() -> TimerConfig {
    TimerConfig {
        work_duration: 1500,
        short_break_duration: 300,
        long_break_duration: 900,
        sessions_until_long_break: 4,
        auto_start_breaks: false,
        auto_start_pomodoros: false,
    }
}

impl Default for TimerConfig {
    fn default() -> (r: Self)
        ensures
            r == default_config(),
    {
        TimerConfig {
            work_duration: 1500,
            short_break_duration: 300,
            long_break_duration: 900,
            sessions_until_long_break: 4,
            auto_start_breaks: false,
            auto_start_pomodoros: false,
        }
    }
}

impl TimerConfig {
    /// The configured length of a phase; phases without a length of their own
    /// (Idle, Paused) count as 0.
    pub open spec fn duration_of(self, phase: TimerState) -> u32 {
        match phase {
            TimerState::Work => self.work_duration,
            TimerState::ShortBreak => self.short_break_duration,
            TimerState::LongBreak => self.long_break_duration,
            _ => 0,
        }
    }

    pub fn duration_for(&self, phase: TimerState) -> (r: u32)
        ensures
            r == self.duration_of(phase),
    {
        match phase {
            TimerState::Work => self.work_duration,
            TimerState::ShortBreak => self.short_break_duration,
            TimerState::LongBreak => self.long_break_duration,
            _ => 0,
        }
    }
}

/// One timed interval of work or break.
#[derive(Debug, Clone)]
pub struct TimerSession {
    pub id: String,
    /// Unix timestamp in seconds.
    pub start_time: u64,
    pub end_time: Option<u64>,
    pub session_type: TimerState,
    pub completed: bool,
}

impl TimerSession {
    /// A field-by-field copy.
    pub fn duplicate(&self) -> (r: TimerSession)
        ensures
            r == *self,
    {
        TimerSession {
            id: self.id.clone(),
            start_time: self.start_time,
            end_time: self.end_time,
            session_type: self.session_type,
            completed: self.completed,
        }
    }
}

/// Progress through the current phase as the exact fraction
/// `numerator / denominator` (the denominator is never 0).
#[derive(Debug, Clone, Copy, PartialEq, Eq, Structural)]
pub struct Progress {
    pub numerator: u32,
    pub denominator: u32,
}

/// A snapshot of the timer, as every state-returning operation hands it out.
#[derive(Debug, Clone)]
pub struct TimerData {
    pub state: TimerState,
    pub current_session: Option<TimerSession>,
    /// Whole seconds left in the current phase.
    pub remaining_time: u32,
    pub progress: Progress,
    pub completed_sessions: u32,
    pub sessions_until_long_break: u32,
}

/// One reading of the clocks: milliseconds on a monotonic clock, and the
/// wall-clock time as Unix seconds (used for session timestamps).
#[derive(Debug, Clone, Copy, PartialEq, Eq, Structural)]
pub struct ClockReading {
    pub monotonic_ms: u64,
    pub unix_secs: u64,
}

/// Remaining whole seconds and progress for a phase of `duration` seconds of
/// which `elapsed_secs` have passed.
pub open spec fn time_left(duration: u32, elapsed_secs: u64) -> (u32, Progress) {
    if elapsed_secs >= duration {
        (0, Progress { numerator: 1, denominator: 1 })
    } else {
        (
            (duration - elapsed_secs) as u32,
            Progress { numerator: elapsed_secs as u32, denominator: duration },
        )
    }
}

/// Computes [`time_left`].
pub fn remaining_and_progress(duration: u32, elapsed_secs: u64) -> (r: (u32, Progress))
    ensures
        r == time_left(duration, elapsed_secs),
        r.1.denominator > 0,
        r.1.numerator <= r.1.denominator,
{
    if elapsed_secs >= duration as u64 {
        (0, Progress { numerator: 1, denominator: 1 })
    } else {
        let e: u32 = elapsed_secs as u32;
        (duration - e, Progress { numerator: e, denominator: duration })
    }
}

} // verus!
