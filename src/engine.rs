use vstd::prelude::*;
use crate::timer::{
    default_config, remaining_and_progress, time_left, ClockReading, Progress, TimerConfig,
    TimerData, TimerSession, TimerState,
};

verus! {

/// Everything the engine stores. Remaining time and progress are not stored:
/// they are derived from these fields and a clock reading.
pub struct EngineState {
    pub current_state: TimerState,
    pub config: TimerConfig,
    /// Monotonic milliseconds at which the current phase began.
    pub start_time: Option<u64>,
    /// Monotonic milliseconds at which the current pause began.
    pub pause_start: Option<u64>,
    /// Milliseconds spent paused since the current phase began.
    pub paused_duration: u64,
    pub current_session: Option<TimerSession>,
    pub completed_sessions: u32,
    pub sessions_until_long_break: u32,
    /// How many sessions have been created; numbers the session identifiers.
    pub sessions_created: u64,
}

/// The phases that run against the clock.
pub open spec fn is_timed(p: TimerState) -> bool {
    p == TimerState::Work || p == TimerState::ShortBreak || p == TimerState::LongBreak
}

/// `start` is legal from Idle and from Paused only.
pub open spec fn can_start(p: TimerState) -> bool {
    p == TimerState::Idle || p == TimerState::Paused
}

/// `pause` is legal from the timed phases only.
pub open spec fn can_pause(p: TimerState) -> bool {
    is_timed(p)
}

/// The engine's invariant: a session exists exactly outside Idle, and it is
/// of a timed kind; in a running phase it is of that phase's kind; a phase
/// start exists exactly outside Idle; a pause start exists exactly while
/// Paused; no pause time is held while Idle.
pub open spec fn state_wf(s: EngineState) -> bool {
    &&& (s.current_state == TimerState::Idle) == s.current_session.is_none()
    &&& (s.current_state == TimerState::Idle) == s.start_time.is_none()
    &&& (s.current_state == TimerState::Paused) == s.pause_start.is_some()
    &&& s.current_session.is_some() ==> is_timed(s.current_session->Some_0.session_type)
    &&& s.current_state == TimerState::Idle ==> s.paused_duration == 0
    &&& is_timed(s.current_state) ==> s.current_session->Some_0.session_type == s.current_state
}

pub open spec fn initial_state() -> EngineState {
    EngineState {
        current_state: TimerState::Idle,
        config: default_config(),
        start_time: None,
        pause_start: None,
        paused_duration: 0,
        current_session: None,
        completed_sessions: 0,
        sessions_until_long_break: 4,
        sessions_created: 0,
    }
}

/// The label that starts a session identifier.
pub open spec fn phase_label(p: TimerState) -> Seq<char> {
    match p {
        TimerState::Work => seq!['w', 'o', 'r', 'k'],
        TimerState::ShortBreak => seq!['s', 'h', 'o', 'r', 't', '_', 'b', 'r', 'e', 'a', 'k'],
        TimerState::LongBreak => seq!['l', 'o', 'n', 'g', '_', 'b', 'r', 'e', 'a', 'k'],
        _ => seq!['u', 'n', 'k', 'n', 'o', 'w', 'n'],
    }
}

pub open spec fn digit_char(d: nat) -> char {
    if d == 0 { '0' }
    else if d == 1 { '1' }
    else if d == 2 { '2' }
    else if d == 3 { '3' }
    else if d == 4 { '4' }
    else if d == 5 { '5' }
    else if d == 6 { '6' }
    else if d == 7 { '7' }
    else if d == 8 { '8' }
    else { '9' }
}

/// The decimal digits of `n`, most significant first, without leading zeros.
pub open spec fn decimal(n: nat) -> Seq<char>
    decreases n,
{
    if n < 10 {
        seq![digit_char(n)]
    } else {
        decimal(n / 10).push(digit_char(n % 10))
    }
}

/// The identifier of the `number`-th session created, of kind `p`.
pub open spec fn session_id(p: TimerState, number: u64) -> Seq<char> {
    phase_label(p) + seq!['_'] + decimal(number as nat)
}

/// Whether `x` is a session freshly begun, of kind `p`, numbered `number`,
/// at Unix time `unix_secs`.
pub open spec fn is_fresh_session(x: TimerSession, p: TimerState, number: u64, unix_secs: u64) -> bool {
    &&& x.id@ == session_id(p, number)
    &&& x.start_time == unix_secs
    &&& x.end_time.is_none()
    &&& x.session_type == p
    &&& !x.completed
}

/// `s` after entering phase `p` afresh at `now`: new session, new start
/// instant, no pause time.
pub open spec fn entered(s: EngineState, p: TimerState, now: ClockReading, x: TimerSession) -> EngineState {
    EngineState {
        current_state: p,
        start_time: Some(now.monotonic_ms),
        pause_start: None,
        paused_duration: 0,
        current_session: Some(x),
        sessions_created: s.sessions_created.saturating_add(1),
        ..s
    }
}

/// `s` back in Idle: no session, no phase start, no pause.
pub open spec fn idled(s: EngineState) -> EngineState {
    EngineState {
        current_state: TimerState::Idle,
        start_time: None,
        pause_start: None,
        paused_duration: 0,
        current_session: None,
        ..s
    }
}

/// Milliseconds of the current phase that count as elapsed at `now`: wall
/// time since the phase began less the time paused; while Paused, frozen at
/// the time paused.
pub open spec fn elapsed_ms(s: EngineState, now: ClockReading) -> u64 {
    if s.current_state == TimerState::Paused {
        s.paused_duration
    } else {
        match s.start_time {
            Some(st) => now.monotonic_ms.saturating_sub(st).saturating_sub(s.paused_duration),
            None => 0,
        }
    }
}

pub open spec fn elapsed_secs(s: EngineState, now: ClockReading) -> u64 {
    elapsed_ms(s, now) / 1000
}

/// The snapshot of `s` at `now`. Remaining time and progress come from the
/// configured length of the current phase; while Idle both are 0.
pub open spec fn snapshot(s: EngineState, now: ClockReading) -> TimerData {
    let (remaining, progress) = if s.start_time.is_some() {
        time_left(s.config.duration_of(s.current_state), elapsed_secs(s, now))
    } else {
        (0u32, Progress { numerator: 0, denominator: 1 })
    };
    TimerData {
        state: s.current_state,
        current_session: s.current_session,
        remaining_time: remaining,
        progress: progress,
        completed_sessions: s.completed_sessions,
        sessions_until_long_break: s.sessions_until_long_break,
    }
}

/// Whether `s2` is `s` having entered phase `p` afresh at `now`, with a new
/// session numbered by `s`'s creation count.
pub open spec fn enters(s: EngineState, p: TimerState, now: ClockReading, s2: EngineState) -> bool {
    &&& s2.current_session is Some
    &&& s2 == entered(s, p, now, s2.current_session->Some_0)
    &&& is_fresh_session(s2.current_session->Some_0, p, s.sessions_created, now.unix_secs)
}

/// `s` resumed at `now` from a pause: the pause interval is added to the time
/// paused and the phase of the interrupted session comes back (Work if there
/// is none). The phase start instant is kept.
pub open spec fn resumed(s: EngineState, now: ClockReading) -> EngineState {
    EngineState {
        current_state: match s.current_session {
            Some(x) => x.session_type,
            None => TimerState::Work,
        },
        pause_start: None,
        paused_duration: match s.pause_start {
            Some(ps) => s.paused_duration.saturating_add(now.monotonic_ms.saturating_sub(ps)),
            None => s.paused_duration,
        },
        ..s
    }
}

/// What a legal `start` at `now` makes of `s`.
pub open spec fn start_step(s: EngineState, now: ClockReading, s2: EngineState) -> bool {
    if s.current_state == TimerState::Idle {
        enters(s, TimerState::Work, now, s2)
    } else {
        s2 == resumed(s, now)
    }
}

/// `s` paused at `now`.
pub open spec fn paused_at(s: EngineState, now: ClockReading) -> EngineState {
    EngineState { current_state: TimerState::Paused, pause_start: Some(now.monotonic_ms), ..s }
}

/// `s` with config `c`; the long-break countdown restarts from `c`'s cycle length.
pub open spec fn configured(s: EngineState, c: TimerConfig) -> EngineState {
    EngineState { config: c, sessions_until_long_break: c.sessions_until_long_break, ..s }
}

/// The bookkeeping of a completion: finishing a Work session counts it and
/// moves the long-break countdown one step down (both saturate).
pub open spec fn counted(s: EngineState) -> EngineState {
    match s.current_session {
        Some(x) => if x.session_type == TimerState::Work {
            EngineState {
                completed_sessions: s.completed_sessions.saturating_add(1),
                sessions_until_long_break: s.sessions_until_long_break.saturating_sub(1),
                ..s
            }
        } else {
            s
        },
        None => s,
    }
}

/// The phase that follows the current one: after Work a long break once the
/// countdown has run out, else a short break; after a break, Work; else Idle.
pub open spec fn next_phase(s: EngineState) -> TimerState {
    match s.current_state {
        TimerState::Work => if s.sessions_until_long_break == 0 {
            TimerState::LongBreak
        } else {
            TimerState::ShortBreak
        },
        TimerState::ShortBreak | TimerState::LongBreak => TimerState::Work,
        _ => TimerState::Idle,
    }
}

/// A long break restarts the countdown from the configured cycle length.
pub open spec fn cycled(s: EngineState) -> EngineState {
    if next_phase(s) == TimerState::LongBreak {
        EngineState { sessions_until_long_break: s.config.sessions_until_long_break, ..s }
    } else {
        s
    }
}

/// Whether the next phase starts by itself: any phase but Idle under
/// `auto_start_breaks`, and Work also under `auto_start_pomodoros`.
pub open spec fn auto_starts(c: TimerConfig, next: TimerState) -> bool {
    next != TimerState::Idle && (c.auto_start_breaks || (next == TimerState::Work
        && c.auto_start_pomodoros))
}

/// What completing the current session at `now` makes of `s`: the next phase
/// is entered afresh where the policy starts it by itself, else the engine
/// goes back to Idle. Either way the finished session is let go: the engine
/// then holds the next phase's session, or none.
pub open spec fn complete_step(s: EngineState, now: ClockReading, s2: EngineState) -> bool {
    let c = counted(s);
    let next = next_phase(c);
    if auto_starts(s.config, next) {
        enters(cycled(c), next, now, s2)
    } else {
        s2 == idled(cycled(c))
    }
}

/// Whether the running phase of `s` has used up its configured length at `now`.
pub open spec fn is_due(s: EngineState, now: ClockReading) -> bool {
    &&& is_timed(s.current_state)
    &&& s.start_time is Some
    &&& elapsed_secs(s, now) >= s.config.duration_of(s.current_state)
}

/// Relies on `ToString` through `Display for u64`: the number in decimal,
/// without leading zeros.
#[verifier::external_body]
fn decimal_text(number: u64) -> (r: String)
    ensures
        r@ == decimal(number as nat),
{
    number.to_string()
}

/// The label, an underscore, then the number in decimal.
fn join_id(label: &str, number: u64) -> (r: String)
    ensures
        r@ == label@ + seq!['_'] + decimal(number as nat),
{
    let digits = decimal_text(number);
    proof {
        reveal_strlit("_");
    }
    String::from_str(label).concat("_").concat(digits.as_str())
}

/// The Pomodoro state machine. Every operation takes the clock reading at
/// which it happens, so the engine never reads a clock itself.
pub struct TimerEngine {
    state: EngineState,
}

impl View for TimerEngine {
    type V = EngineState;

    closed spec fn view(&self) -> EngineState {
        self.state
    }
}

impl TimerEngine {
    /// Idle, with the default config and a full long-break countdown.
    pub fn new() -> (r: TimerEngine)
        ensures
            r@ == initial_state(),
            state_wf(r@),
    {
        TimerEngine {
            state: EngineState {
                current_state: TimerState::Idle,
                config: TimerConfig::default(),
                start_time: None,
                pause_start: None,
                paused_duration: 0,
                current_session: None,
                completed_sessions: 0,
                sessions_until_long_break: 4,
                sessions_created: 0,
            },
        }
    }

    /// The snapshot at `now`.
    pub fn get_state(&self, now: ClockReading) -> (r: TimerData)
        ensures
            r == snapshot(self@, now),
    {
        let st = &self.state;
        let (remaining, progress) = match st.start_time {
            Some(start) => {
                let elapsed: u64 = if st.current_state == TimerState::Paused {
                    st.paused_duration
                } else {
                    now.monotonic_ms.saturating_sub(start).saturating_sub(st.paused_duration)
                };
                remaining_and_progress(st.config.duration_for(st.current_state), elapsed / 1000)
            },
            None => (0u32, Progress { numerator: 0, denominator: 1 }),
        };
        let session = match &st.current_session {
            Some(x) => Some(x.duplicate()),
            None => None,
        };
        TimerData {
            state: st.current_state,
            current_session: session,
            remaining_time: remaining,
            progress,
            completed_sessions: st.completed_sessions,
            sessions_until_long_break: st.sessions_until_long_break,
        }
    }

    pub fn get_config(&self) -> (r: TimerConfig)
        ensures
            r == self@.config,
    {
        self.state.config
    }

    /// A new session of kind `p`, numbered by the creation count, begun at `now`.
    fn fresh_session(&self, p: TimerState, now: ClockReading) -> (r: TimerSession)
        requires
            is_timed(p),
        ensures
            is_fresh_session(r, p, self@.sessions_created, now.unix_secs),
    {
        let label: &str = match p {
            TimerState::Work => "work",
            TimerState::ShortBreak => "short_break",
            _ => "long_break",
        };
        proof {
            reveal_strlit("work");
            reveal_strlit("short_break");
            reveal_strlit("long_break");
        }
        let id = join_id(label, self.state.sessions_created);
        assert(id@ == session_id(p, self.state.sessions_created));
        TimerSession {
            id,
            start_time: now.unix_secs,
            end_time: None,
            session_type: p,
            completed: false,
        }
    }

    /// Enters phase `p` afresh at `now`.
    fn enter(&mut self, p: TimerState, now: ClockReading)
        requires
            is_timed(p),
        ensures
            enters(old(self)@, p, now, final(self)@),
    {
        let x = self.fresh_session(p, now);
        self.state.current_state = p;
        self.state.start_time = Some(now.monotonic_ms);
        self.state.pause_start = None;
        self.state.paused_duration = 0;
        self.state.current_session = Some(x);
        self.state.sessions_created = self.state.sessions_created.saturating_add(1);
    }

    /// Starts a work session from Idle, or resumes from Paused; fails in any
    /// other phase and then changes nothing.
    pub fn start(&mut self, now: ClockReading) -> (r: Result<TimerData, String>)
        requires
            state_wf(old(self)@),
        ensures
            r is Ok <==> can_start(old(self)@.current_state),
            r is Ok ==> start_step(old(self)@, now, final(self)@) && r->Ok_0 == snapshot(
                final(self)@,
                now,
            ),
            r is Err ==> final(self)@ == old(self)@ && r->Err_0@
                == "Cannot start timer in current state"@,
            state_wf(final(self)@),
    {
        match self.state.current_state {
            TimerState::Idle => {
                self.enter(TimerState::Work, now);
            },
            TimerState::Paused => {
                let paused = match self.state.pause_start {
                    Some(ps) => self.state.paused_duration.saturating_add(
                        now.monotonic_ms.saturating_sub(ps),
                    ),
                    None => self.state.paused_duration,
                };
                let phase = match &self.state.current_session {
                    Some(x) => x.session_type,
                    None => TimerState::Work,
                };
                self.state.current_state = phase;
                self.state.pause_start = None;
                self.state.paused_duration = paused;
            },
            _ => {
                return Err("Cannot start timer in current state".to_owned());
            },
        }
        Ok(self.get_state(now))
    }

    /// Pauses a running phase; fails from Idle or Paused and then changes nothing.
    pub fn pause(&mut self, now: ClockReading) -> (r: Result<TimerData, String>)
        requires
            state_wf(old(self)@),
        ensures
            r is Ok <==> can_pause(old(self)@.current_state),
            r is Ok ==> final(self)@ == paused_at(old(self)@, now) && r->Ok_0 == snapshot(
                final(self)@,
                now,
            ),
            r is Err ==> final(self)@ == old(self)@ && r->Err_0@
                == "Cannot pause timer in current state"@,
            state_wf(final(self)@),
    {
        match self.state.current_state {
            TimerState::Work | TimerState::ShortBreak | TimerState::LongBreak => {
                self.state.current_state = TimerState::Paused;
                self.state.pause_start = Some(now.monotonic_ms);
            },
            _ => {
                return Err("Cannot pause timer in current state".to_owned());
            },
        }
        Ok(self.get_state(now))
    }

    /// Back to Idle; the session is dropped, the counters are kept.
    pub fn reset(&mut self, now: ClockReading) -> (r: TimerData)
        requires
            state_wf(old(self)@),
        ensures
            final(self)@ == idled(old(self)@),
            r == snapshot(final(self)@, now),
            state_wf(final(self)@),
    {
        self.state.current_state = TimerState::Idle;
        self.state.start_time = None;
        self.state.pause_start = None;
        self.state.paused_duration = 0;
        self.state.current_session = None;
        self.get_state(now)
    }

    /// Replaces the config; the long-break countdown restarts from the new
    /// cycle length, also in the middle of a cycle.
    pub fn update_config(&mut self, config: TimerConfig, now: ClockReading) -> (r: TimerData)
        requires
            state_wf(old(self)@),
        ensures
            final(self)@ == configured(old(self)@, config),
            r == snapshot(final(self)@, now),
            state_wf(final(self)@),
    {
        self.state.config = config;
        self.state.sessions_until_long_break = config.sessions_until_long_break;
        self.get_state(now)
    }

    /// Completes the current session at `now` and moves on to the next phase
    /// (see [`complete_step`]).
    pub fn complete(&mut self, now: ClockReading) -> (r: TimerData)
        requires
            state_wf(old(self)@),
        ensures
            complete_step(old(self)@, now, final(self)@),
            r == snapshot(final(self)@, now),
            state_wf(final(self)@),
    {
        let ghost s0 = self@;
        let is_work = match &self.state.current_session {
            Some(x) => x.session_type == TimerState::Work,
            None => false,
        };
        if is_work {
            self.state.completed_sessions = self.state.completed_sessions.saturating_add(1);
            self.state.sessions_until_long_break =
                self.state.sessions_until_long_break.saturating_sub(1);
        }
        assert(self@ == counted(s0));
        let next = match self.state.current_state {
            TimerState::Work => if self.state.sessions_until_long_break == 0 {
                TimerState::LongBreak
            } else {
                TimerState::ShortBreak
            },
            TimerState::ShortBreak | TimerState::LongBreak => TimerState::Work,
            _ => TimerState::Idle,
        };
        if next == TimerState::LongBreak {
            self.state.sessions_until_long_break = self.state.config.sessions_until_long_break;
        }
        assert(self@ == cycled(counted(s0)));
        let auto = next != TimerState::Idle && (self.state.config.auto_start_breaks || (next
            == TimerState::Work && self.state.config.auto_start_pomodoros));
        if auto {
            self.enter(next, now);
        } else {
            self.state.current_state = TimerState::Idle;
            self.state.start_time = None;
            self.state.pause_start = None;
            self.state.paused_duration = 0;
            self.state.current_session = None;
        }
        self.get_state(now)
    }

    /// Completes the running phase if its configured length is used up at
    /// `now`, and then hands back the snapshot after the transition; else
    /// changes nothing and hands back `None`. Never completes while Idle or Paused.
    pub fn check_if_completed(&mut self, now: ClockReading) -> (r: Option<TimerData>)
        requires
            state_wf(old(self)@),
        ensures
            r is Some <==> is_due(old(self)@, now),
            r is Some ==> complete_step(old(self)@, now, final(self)@) && r->Some_0 == snapshot(
                final(self)@,
                now,
            ),
            r is None ==> final(self)@ == old(self)@,
            state_wf(final(self)@),
    {
        let due = match self.state.start_time {
            Some(start) => match self.state.current_state {
                TimerState::Work | TimerState::ShortBreak | TimerState::LongBreak => {
                    let elapsed = now.monotonic_ms.saturating_sub(start).saturating_sub(
                        self.state.paused_duration,
                    );
                    elapsed / 1000 >= self.state.config.duration_for(self.state.current_state) as u64
                },
                _ => false,
            },
            None => false,
        };
        if due {
            Some(self.complete(now))
        } else {
            None
        }
    }
}

} // verus!
