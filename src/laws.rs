//! Properties of the timer that span several operations, proved over the
//! engine's state model.
use vstd::prelude::*;
use crate::timer::{default_config, ClockReading, Progress, TimerState};
use crate::engine::{
    decimal, digit_char, phase_label, session_id,
    can_pause, complete_step, elapsed_ms, elapsed_secs, is_timed, paused_at, snapshot, start_step,
    state_wf, EngineState,
};

verus! {

/// Resuming after a pause brings back exactly the phase that was paused,
/// with the same session and the same phase start instant.
pub proof fn lemma_resume_restores_phase(
    s: EngineState,
    paused: ClockReading,
    resumed: ClockReading,
    s2: EngineState,
)
    requires
        state_wf(s),
        can_pause(s.current_state),
        start_step(paused_at(s, paused), resumed, s2),
    ensures
        s2.current_state == s.current_state,
        s2.current_session == s.current_session,
        s2.start_time == s.start_time,
        state_wf(s2),
{
}

/// In a running phase of positive length `D`, with `e` whole seconds
/// elapsed: once `e >= D` nothing remains and progress is 1; before that,
/// `D - e` seconds remain and progress is `e / D`.
pub proof fn lemma_remaining_and_progress(s: EngineState, now: ClockReading)
    requires
        state_wf(s),
        is_timed(s.current_state),
        s.config.duration_of(s.current_state) > 0,
    ensures
        ({
            let d = s.config.duration_of(s.current_state);
            let e = elapsed_secs(s, now);
            let r = snapshot(s, now);
            &&& e >= d ==> r.remaining_time == 0 && r.progress == Progress {
                numerator: 1,
                denominator: 1,
            }
            &&& e < d ==> r.remaining_time == d - e && r.progress == Progress {
                numerator: e as u32,
                denominator: d,
            }
        }),
{
}

proof fn lemma_div_gap(x: u64, y: u64, gap: u64)
    requires
        y <= x,
        x - y <= gap,
    ensures
        y / 1000 <= x / 1000,
        x / 1000 - y / 1000 <= (gap + 999) / 1000,
{
    assert(y / 1000 <= x / 1000) by (nonlinear_arith)
        requires
            y <= x,
    ;
    assert(x / 1000 - y / 1000 <= (gap + 999) / 1000) by (nonlinear_arith)
        requires
            y <= x,
            x - y <= gap,
    ;
}

/// Two snapshots of an unchanged engine agree on everything but remaining
/// time and progress, and are equal at the same instant. Between two
/// instants the remaining time drops by no more than the seconds between
/// them, rounded up, and progress does not go back.
pub proof fn lemma_snapshot_stable(s: EngineState, t1: ClockReading, t2: ClockReading)
    requires
        state_wf(s),
        t1.monotonic_ms <= t2.monotonic_ms,
    ensures
        snapshot(s, t1).state == snapshot(s, t2).state,
        snapshot(s, t1).current_session == snapshot(s, t2).current_session,
        snapshot(s, t1).completed_sessions == snapshot(s, t2).completed_sessions,
        snapshot(s, t1).sessions_until_long_break == snapshot(s, t2).sessions_until_long_break,
        t1.monotonic_ms == t2.monotonic_ms ==> snapshot(s, t1) == snapshot(s, t2),
        snapshot(s, t2).remaining_time <= snapshot(s, t1).remaining_time,
        snapshot(s, t1).remaining_time <= snapshot(s, t2).remaining_time + (t2.monotonic_ms
            - t1.monotonic_ms + 999) / 1000,
        snapshot(s, t1).progress.numerator * snapshot(s, t2).progress.denominator
            <= snapshot(s, t2).progress.numerator * snapshot(s, t1).progress.denominator,
{
    let e1 = elapsed_ms(s, t1);
    let e2 = elapsed_ms(s, t2);
    let gap = (t2.monotonic_ms - t1.monotonic_ms) as u64;
    assert(e1 <= e2 && e2 - e1 <= gap);
    lemma_div_gap(e2, e1, gap);
    let d = s.config.duration_of(s.current_state);
    let a = elapsed_secs(s, t1);
    let b = elapsed_secs(s, t2);
    if s.start_time.is_some() && a < d && b < d {
        assert(a * d <= b * d) by (nonlinear_arith)
            requires
                a <= b,
        ;
    }
}

/// One work round under the default config: start from Idle, then complete.
pub open spec fn work_round(
    s: EngineState,
    t1: ClockReading,
    mid: EngineState,
    t2: ClockReading,
    s2: EngineState,
) -> bool {
    start_step(s, t1, mid) && complete_step(mid, t2, s2)
}

proof fn lemma_one_round(
    s: EngineState,
    t1: ClockReading,
    mid: EngineState,
    t2: ClockReading,
    s2: EngineState,
)
    requires
        state_wf(s),
        s.current_state == TimerState::Idle,
        s.config == default_config(),
        1 <= s.sessions_until_long_break <= 4,
        s.completed_sessions < u32::MAX,
        work_round(s, t1, mid, t2, s2),
    ensures
        state_wf(s2),
        s2.current_state == TimerState::Idle,
        s2.config == default_config(),
        s2.completed_sessions == s.completed_sessions + 1,
        s2.sessions_until_long_break == if s.sessions_until_long_break == 1 {
            4
        } else {
            s.sessions_until_long_break - 1
        },
{
}

/// With the default config (cycle length 4, no auto-start), four work
/// sessions started from Idle and completed each end in Idle; after the
/// fourth, four more sessions are counted and the long-break countdown is
/// back at 4.
pub proof fn lemma_long_break_cycle(
    s0: EngineState,
    a1: ClockReading, m1: EngineState, b1: ClockReading, s1: EngineState,
    a2: ClockReading, m2: EngineState, b2: ClockReading, s2: EngineState,
    a3: ClockReading, m3: EngineState, b3: ClockReading, s3: EngineState,
    a4: ClockReading, m4: EngineState, b4: ClockReading, s4: EngineState,
)
    requires
        state_wf(s0),
        s0.current_state == TimerState::Idle,
        s0.config == default_config(),
        s0.sessions_until_long_break == 4,
        s0.completed_sessions <= u32::MAX - 4,
        work_round(s0, a1, m1, b1, s1),
        work_round(s1, a2, m2, b2, s2),
        work_round(s2, a3, m3, b3, s3),
        work_round(s3, a4, m4, b4, s4),
    ensures
        s1.current_state == TimerState::Idle,
        s2.current_state == TimerState::Idle,
        s3.current_state == TimerState::Idle,
        s4.current_state == TimerState::Idle,
        s4.completed_sessions == s0.completed_sessions + 4,
        s4.sessions_until_long_break == 4,
{
    lemma_one_round(s0, a1, m1, b1, s1);
    lemma_one_round(s1, a2, m2, b2, s2);
    lemma_one_round(s2, a3, m3, b3, s3);
    lemma_one_round(s3, a4, m4, b4, s4);
}

proof fn lemma_digit_char_injective(a: nat, b: nat)
    requires
        a < 10,
        b < 10,
        digit_char(a) == digit_char(b),
    ensures
        a == b,
{
}

proof fn lemma_decimal_len(n: nat)
    ensures
        decimal(n).len() >= 1,
        n >= 10 ==> decimal(n).len() >= 2,
    decreases n,
{
    if n >= 10 {
        lemma_decimal_len(n / 10);
    }
}

/// Different numbers have different decimal texts.
proof fn lemma_decimal_injective(n: nat, m: nat)
    requires
        decimal(n) == decimal(m),
    ensures
        n == m,
    decreases n,
{
    lemma_decimal_len(n);
    lemma_decimal_len(m);
    if n < 10 && m < 10 {
        assert(decimal(n)[0] == digit_char(n));
        assert(decimal(m)[0] == digit_char(m));
        lemma_digit_char_injective(n, m);
    } else if n >= 10 && m >= 10 {
        let dn = decimal(n);
        assert(dn.last() == digit_char(n % 10));
        assert(dn.last() == digit_char(m % 10));
        lemma_digit_char_injective(n % 10, m % 10);
        assert(dn.drop_last() == decimal(n / 10));
        assert(dn.drop_last() == decimal(m / 10));
        lemma_decimal_injective(n / 10, m / 10);
    } else {
        lemma_decimal_len(n / 10);
        lemma_decimal_len(m / 10);
    }
}

/// Session identifiers with different numbers differ, whatever the kinds of
/// the sessions.
pub proof fn lemma_session_ids_unique(p: TimerState, n: u64, q: TimerState, m: u64)
    requires
        n != m,
    ensures
        session_id(p, n) != session_id(q, m),
{
    if session_id(p, n) == session_id(q, m) {
        let a = session_id(p, n);
        if phase_label(p) == phase_label(q) {
            let k: int = phase_label(p).len() as int + 1;
            assert(a.subrange(k, a.len() as int) == decimal(n as nat));
            assert(session_id(q, m).subrange(k, a.len() as int) == decimal(m as nat));
            lemma_decimal_injective(n as nat, m as nat);
        } else {
            assert(a[0] == phase_label(p)[0]);
            assert(session_id(q, m)[0] == phase_label(q)[0]);
        }
    }
}

/// The creation count never falls. A start or a completion either creates
/// no session and keeps the count, or creates one numbered by the count
/// before it and raises the count by one (below `u64::MAX`). So, with the
/// lemma above, no two sessions of an engine's history share an identifier
/// while the count stays below `u64::MAX`.
pub proof fn lemma_creation_count_rises(s: EngineState, now: ClockReading, s2: EngineState)
    requires
        state_wf(s),
        start_step(s, now, s2) || complete_step(s, now, s2),
        s.sessions_created < u64::MAX,
    ensures
        s2.sessions_created == s.sessions_created && (s2.current_session is None
            || s2.current_session == s.current_session) || s2.sessions_created
            == s.sessions_created + 1 && s2.current_session is Some
            && s2.current_session->Some_0.id@ == session_id(
            s2.current_session->Some_0.session_type,
            s.sessions_created,
        ),
{
}

} // verus!
