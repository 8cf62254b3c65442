//! The timer as an application holds it: an engine plus the clocks it is
//! driven by.
use vstd::prelude::*;
use std::time::{Duration, Instant};
use crate::timer::{ClockReading, TimerConfig, TimerData};
use crate::engine::{
    can_pause, can_start, complete_step, idled, initial_state, is_due, paused_at, configured,
    snapshot, start_step, state_wf, EngineState, TimerEngine,
};

verus! {

#[verifier::external_type_specification]
#[verifier::external_body]
pub struct ExInstant(std::time::Instant);

/// Relies on `Instant::now`: a reading of the monotonic clock.
#[verifier::external_body]
fn clock_origin() -> Instant {
    Instant::now()
}

/// Relies on `Instant::elapsed`: the time since `origin` on the monotonic clock.
#[verifier::external_body]
fn elapsed_since(origin: &Instant) -> Duration {
    origin.elapsed()
}

/// Relies on `Duration::as_millis`: the whole milliseconds of `d`.
#[verifier::external_body]
fn whole_millis(d: &Duration) -> u128 {
    d.as_millis()
}

/// Relies on `Duration::as_secs`: the whole seconds of `d`.
#[verifier::external_body]
fn whole_secs(d: &Duration) -> u64 {
    d.as_secs()
}

/// Relies on `SystemTime::elapsed` applied to `UNIX_EPOCH`: the wall-clock
/// time since the epoch, `None` where the system clock stands before it.
#[verifier::external_body]
fn since_unix_epoch() -> Option<Duration> {
    std::time::UNIX_EPOCH.elapsed().ok()
}

/// The timer engine driven by the system clocks: milliseconds since the
/// manager was created on the monotonic clock, and Unix seconds for session
/// timestamps. Callers that share a manager between threads wrap it in a
/// lock; each operation is one transition.
pub struct TimerManager {
    engine: TimerEngine,
    origin: Instant,
}

impl View for TimerManager {
    type V = EngineState;

    closed spec fn view(&self) -> EngineState {
        self.engine@
    }
}

impl Default for TimerManager {
    fn default() -> (r: Self)
        ensures
            r@ == initial_state(),
            state_wf(r@),
    {
        TimerManager::new()
    }
}

impl TimerManager {
    /// Idle, with the default config.
    pub fn new() -> (r: Self)
        ensures
            r@ == initial_state(),
            state_wf(r@),
    {
        TimerManager { engine: TimerEngine::new(), origin: clock_origin() }
    }

    /// Reads both clocks; the monotonic one saturates at `u64::MAX` milliseconds.
    fn now(&self) -> ClockReading {
        let elapsed = elapsed_since(&self.origin);
        let ms = whole_millis(&elapsed);
        let monotonic_ms: u64 = if ms > u64::MAX as u128 {
            u64::MAX
        } else {
            ms as u64
        };
        let unix_secs: u64 = match since_unix_epoch() {
            Some(d) => whole_secs(&d),
            None => 0,
        };
        ClockReading { monotonic_ms, unix_secs }
    }

    /// Starts a work session from Idle or resumes from Paused, at the current
    /// time; fails in any other phase and then changes nothing.
    pub fn start_timer(&mut self) -> (r: Result<TimerData, String>)
        requires
            state_wf(old(self)@),
        ensures
            state_wf(final(self)@),
            r is Ok <==> can_start(old(self)@.current_state),
            r is Ok ==> exists|t: ClockReading|
                #[trigger] start_step(old(self)@, t, final(self)@) && r->Ok_0 == snapshot(
                    final(self)@,
                    t,
                ),
            r is Err ==> final(self)@ == old(self)@ && r->Err_0@
                == "Cannot start timer in current state"@,
    {
        let t = self.now();
        let r = self.engine.start(t);
        assert(r is Ok ==> start_step(old(self)@, t, self@));
        r
    }

    /// Pauses a running phase at the current time; fails from Idle or Paused
    /// and then changes nothing.
    pub fn pause_timer(&mut self) -> (r: Result<TimerData, String>)
        requires
            state_wf(old(self)@),
        ensures
            state_wf(final(self)@),
            r is Ok <==> can_pause(old(self)@.current_state),
            r is Ok ==> exists|t: ClockReading|
                #[trigger] paused_at(old(self)@, t) == final(self)@ && r->Ok_0 == snapshot(
                    final(self)@,
                    t,
                ),
            r is Err ==> final(self)@ == old(self)@ && r->Err_0@
                == "Cannot pause timer in current state"@,
    {
        let t = self.now();
        let r = self.engine.pause(t);
        assert(r is Ok ==> paused_at(old(self)@, t) == self@);
        r
    }

    /// Back to Idle; the counters are kept. Always succeeds.
    pub fn reset_timer(&mut self) -> (r: Result<TimerData, String>)
        requires
            state_wf(old(self)@),
        ensures
            state_wf(final(self)@),
            final(self)@ == idled(old(self)@),
            r is Ok,
            exists|t: ClockReading| #[trigger] snapshot(final(self)@, t) == r->Ok_0,
    {
        let t = self.now();
        Ok(self.engine.reset(t))
    }

    /// The snapshot at the current time. Always succeeds.
    pub fn get_timer_state(&self) -> (r: Result<TimerData, String>)
        ensures
            r is Ok,
            exists|t: ClockReading| #[trigger] snapshot(self@, t) == r->Ok_0,
    {
        let t = self.now();
        let d = self.engine.get_state(t);
        assert(snapshot(self@, t) == d);
        Ok(d)
    }

    /// Replaces the config and restarts the long-break countdown from it.
    /// Always succeeds.
    pub fn update_config(&mut self, config: TimerConfig) -> (r: Result<TimerData, String>)
        requires
            state_wf(old(self)@),
        ensures
            state_wf(final(self)@),
            final(self)@ == configured(old(self)@, config),
            r is Ok,
            exists|t: ClockReading| #[trigger] snapshot(final(self)@, t) == r->Ok_0,
    {
        let t = self.now();
        Ok(self.engine.update_config(config, t))
    }

    /// The current config. Always succeeds.
    pub fn get_config(&self) -> (r: Result<TimerConfig, String>)
        ensures
            r == Ok::<TimerConfig, String>(self@.config),
    {
        Ok(self.engine.get_config())
    }

    /// Completes the current session at the current time and moves on to the
    /// next phase. Always succeeds.
    pub fn complete_session(&mut self) -> (r: Result<TimerData, String>)
        requires
            state_wf(old(self)@),
        ensures
            state_wf(final(self)@),
            r is Ok,
            exists|t: ClockReading|
                #[trigger] complete_step(old(self)@, t, final(self)@) && r->Ok_0 == snapshot(
                    final(self)@,
                    t,
                ),
    {
        let t = self.now();
        let d = self.engine.complete(t);
        assert(complete_step(old(self)@, t, self@));
        Ok(d)
    }

    /// Completes the running phase if its length is used up at the current
    /// time, handing back the snapshot after the transition; else `None`,
    /// with nothing changed. Always succeeds.
    pub fn check_if_completed(&mut self) -> (r: Result<Option<TimerData>, String>)
        requires
            state_wf(old(self)@),
        ensures
            state_wf(final(self)@),
            r is Ok,
            exists|t: ClockReading|
                #[trigger] is_due(old(self)@, t) == (r->Ok_0 is Some) && (r->Ok_0 is Some
                    ==> complete_step(old(self)@, t, final(self)@) && r->Ok_0->Some_0 == snapshot(
                    final(self)@,
                    t,
                )) && (r->Ok_0 is None ==> final(self)@ == old(self)@),
    {
        let t = self.now();
        let d = self.engine.check_if_completed(t);
        assert(is_due(old(self)@, t) == (d is Some));
        Ok(d)
    }
}

} // verus!
