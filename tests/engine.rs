use tempus_ring::engine::TimerEngine;
use tempus_ring::timer::{remaining_and_progress, ClockReading, Progress, TimerConfig, TimerState};

fn at(ms: u64) -> ClockReading {
    ClockReading { monotonic_ms: ms, unix_secs: 1_700_000_000 + ms / 1000 }
}

fn config(sessions: u32, breaks: bool, pomodoros: bool) -> TimerConfig {
    TimerConfig {
        work_duration: 1500,
        short_break_duration: 300,
        long_break_duration: 900,
        sessions_until_long_break: sessions,
        auto_start_breaks: breaks,
        auto_start_pomodoros: pomodoros,
    }
}

#[test]
fn start_from_idle_creates_fresh_work_session() {
    let mut e = TimerEngine::new();
    let d = e.start(at(0)).unwrap();
    assert_eq!(d.state, TimerState::Work);
    let s = d.current_session.unwrap();
    assert_eq!(s.id, "work_0");
    assert_eq!(s.start_time, 1_700_000_000);
    assert_eq!(s.end_time, None);
    assert_eq!(s.session_type, TimerState::Work);
    assert!(!s.completed);
}

#[test]
fn pause_resume_complete_scenario() {
    let mut e = TimerEngine::new();
    let d = e.start(at(0)).unwrap();
    assert_eq!(d.state, TimerState::Work);
    assert_eq!(d.remaining_time, 1500);
    assert_eq!(d.progress, Progress { numerator: 0, denominator: 1500 });
    let d = e.pause(at(100)).unwrap();
    assert_eq!(d.state, TimerState::Paused);
    let d = e.start(at(200)).unwrap();
    assert_eq!(d.state, TimerState::Work);
    assert_eq!(d.remaining_time, 1500);
    let d = e.complete(at(300));
    assert_eq!(d.state, TimerState::Idle);
    assert_eq!(d.completed_sessions, 1);
    assert_eq!(d.sessions_until_long_break, 3);
}

#[test]
fn auto_breaks_reach_long_break_after_three() {
    let mut e = TimerEngine::new();
    e.update_config(config(3, true, false), at(0));
    e.start(at(0)).unwrap();
    let d = e.complete(at(1));
    assert_eq!(d.state, TimerState::ShortBreak);
    assert_eq!(d.sessions_until_long_break, 2);
    let d = e.complete(at(2));
    assert_eq!(d.state, TimerState::Work);
    let d = e.complete(at(3));
    assert_eq!(d.state, TimerState::ShortBreak);
    assert_eq!(d.sessions_until_long_break, 1);
    let d = e.complete(at(4));
    assert_eq!(d.state, TimerState::Work);
    let d = e.complete(at(5));
    assert_eq!(d.state, TimerState::LongBreak);
    assert_eq!(d.sessions_until_long_break, 3);
    assert_eq!(d.completed_sessions, 3);
    assert_eq!(d.current_session.unwrap().id, "long_break_5");
}

#[test]
fn remaining_and_progress_follow_elapsed_time() {
    let mut e = TimerEngine::new();
    e.start(at(0)).unwrap();
    let d = e.get_state(at(600_000));
    assert_eq!(d.remaining_time, 900);
    assert_eq!(d.progress, Progress { numerator: 600, denominator: 1500 });
    let d = e.get_state(at(1_499_999));
    assert_eq!(d.remaining_time, 1);
    assert_eq!(d.progress, Progress { numerator: 1499, denominator: 1500 });
    let d = e.get_state(at(1_500_000));
    assert_eq!(d.remaining_time, 0);
    assert_eq!(d.progress, Progress { numerator: 1, denominator: 1 });
    let d = e.get_state(at(9_000_000));
    assert_eq!(d.remaining_time, 0);
    assert_eq!(d.progress, Progress { numerator: 1, denominator: 1 });
}

#[test]
fn remaining_and_progress_formula() {
    assert_eq!(remaining_and_progress(1500, 0), (1500, Progress { numerator: 0, denominator: 1500 }));
    assert_eq!(remaining_and_progress(300, 120), (180, Progress { numerator: 120, denominator: 300 }));
    assert_eq!(remaining_and_progress(300, 300), (0, Progress { numerator: 1, denominator: 1 }));
    assert_eq!(remaining_and_progress(0, 0), (0, Progress { numerator: 1, denominator: 1 }));
}

#[test]
fn paused_time_is_excluded_from_elapsed() {
    let mut e = TimerEngine::new();
    e.start(at(0)).unwrap();
    e.pause(at(10_000)).unwrap();
    let d = e.start(at(70_000)).unwrap();
    assert_eq!(d.remaining_time, 1490);
    let d = e.get_state(at(80_000));
    assert_eq!(d.remaining_time, 1480);
}

#[test]
fn paused_snapshot_has_no_phase_length() {
    let mut e = TimerEngine::new();
    e.start(at(0)).unwrap();
    let d = e.pause(at(5_000)).unwrap();
    assert_eq!(d.remaining_time, 0);
    assert_eq!(d.progress, Progress { numerator: 1, denominator: 1 });
}

#[test]
fn idle_snapshot_is_zero() {
    let e = TimerEngine::new();
    let d = e.get_state(at(123));
    assert_eq!(d.state, TimerState::Idle);
    assert_eq!(d.remaining_time, 0);
    assert_eq!(d.progress, Progress { numerator: 0, denominator: 1 });
    assert!(d.current_session.is_none());
    assert_eq!(d.sessions_until_long_break, 4);
}

#[test]
fn get_state_twice_agrees() {
    let mut e = TimerEngine::new();
    e.start(at(0)).unwrap();
    let a = e.get_state(at(42_000));
    let b = e.get_state(at(42_000));
    assert_eq!(a.state, b.state);
    assert_eq!(a.remaining_time, b.remaining_time);
    assert_eq!(a.progress, b.progress);
    assert_eq!(a.current_session.unwrap().id, b.current_session.unwrap().id);
    let c = e.get_state(at(43_500));
    assert!(a.remaining_time - c.remaining_time <= 2);
}

#[test]
fn default_cycle_returns_to_idle_and_resets_countdown() {
    let mut e = TimerEngine::new();
    let expected = [3, 2, 1, 4];
    for (i, want) in expected.iter().enumerate() {
        let t = (i as u64) * 10;
        assert_eq!(e.start(at(t)).unwrap().state, TimerState::Work);
        let d = e.complete(at(t + 1));
        assert_eq!(d.state, TimerState::Idle);
        assert_eq!(d.sessions_until_long_break, *want);
        assert_eq!(d.completed_sessions, i as u32 + 1);
    }
}

#[test]
fn reset_keeps_counters() {
    let mut e = TimerEngine::new();
    e.start(at(0)).unwrap();
    e.complete(at(1));
    e.start(at(2)).unwrap();
    let d = e.reset(at(3));
    assert_eq!(d.state, TimerState::Idle);
    assert!(d.current_session.is_none());
    assert_eq!(d.completed_sessions, 1);
    assert_eq!(d.sessions_until_long_break, 3);
}

#[test]
fn pause_is_refused_from_idle_and_paused() {
    let mut e = TimerEngine::new();
    assert_eq!(e.pause(at(0)).unwrap_err(), "Cannot pause timer in current state");
    e.start(at(0)).unwrap();
    e.pause(at(1)).unwrap();
    assert_eq!(e.pause(at(2)).unwrap_err(), "Cannot pause timer in current state");
    assert_eq!(e.get_state(at(3)).state, TimerState::Paused);
}

#[test]
fn start_is_refused_while_running() {
    let mut e = TimerEngine::new();
    e.start(at(0)).unwrap();
    assert_eq!(e.start(at(1)).unwrap_err(), "Cannot start timer in current state");
    assert_eq!(e.get_state(at(1)).current_session.unwrap().id, "work_0");
}

#[test]
fn resume_restores_break_phase() {
    let mut e = TimerEngine::new();
    e.update_config(config(4, true, false), at(0));
    e.start(at(0)).unwrap();
    let d = e.complete(at(1));
    assert_eq!(d.state, TimerState::ShortBreak);
    assert_eq!(d.current_session.unwrap().id, "short_break_1");
    assert_eq!(e.pause(at(2)).unwrap().state, TimerState::Paused);
    let d = e.start(at(3)).unwrap();
    assert_eq!(d.state, TimerState::ShortBreak);
    assert_eq!(d.current_session.unwrap().session_type, TimerState::ShortBreak);
}

#[test]
fn completion_check_completes_when_due() {
    let mut e = TimerEngine::new();
    e.start(at(0)).unwrap();
    assert!(e.check_if_completed(at(1_499_999)).is_none());
    assert_eq!(e.get_state(at(0)).state, TimerState::Work);
    let d = e.check_if_completed(at(1_500_000)).unwrap();
    assert_eq!(d.state, TimerState::Idle);
    assert_eq!(d.completed_sessions, 1);
}

#[test]
fn completion_check_never_fires_while_paused_or_idle() {
    let mut e = TimerEngine::new();
    assert!(e.check_if_completed(at(10_000_000)).is_none());
    e.start(at(0)).unwrap();
    e.pause(at(1)).unwrap();
    assert!(e.check_if_completed(at(10_000_000)).is_none());
    assert_eq!(e.get_state(at(10_000_000)).state, TimerState::Paused);
}

#[test]
fn complete_from_idle_stays_idle() {
    let mut e = TimerEngine::new();
    e.update_config(config(4, true, true), at(0));
    let d = e.complete(at(5));
    assert_eq!(d.state, TimerState::Idle);
    assert!(d.current_session.is_none());
    assert_eq!(d.completed_sessions, 0);
    assert_eq!(d.sessions_until_long_break, 4);
}

#[test]
fn pomodoro_flag_starts_work_only() {
    let mut e = TimerEngine::new();
    e.update_config(config(4, false, true), at(0));
    e.start(at(0)).unwrap();
    let d = e.complete(at(1));
    assert_eq!(d.state, TimerState::Idle);
}

#[test]
fn update_config_restarts_countdown_mid_cycle() {
    let mut e = TimerEngine::new();
    e.start(at(0)).unwrap();
    assert_eq!(e.complete(at(1)).sessions_until_long_break, 3);
    let d = e.update_config(config(6, false, false), at(2));
    assert_eq!(d.sessions_until_long_break, 6);
    assert_eq!(e.get_config().sessions_until_long_break, 6);
}

#[test]
fn clock_going_backwards_counts_as_no_time() {
    let mut e = TimerEngine::new();
    e.start(at(5_000)).unwrap();
    let d = e.get_state(at(1_000));
    assert_eq!(d.remaining_time, 1500);
}

#[test]
fn zero_length_phase_is_done_at_once() {
    let mut e = TimerEngine::new();
    let mut c = config(4, false, false);
    c.work_duration = 0;
    e.update_config(c, at(0));
    let d = e.start(at(0)).unwrap();
    assert_eq!(d.remaining_time, 0);
    assert_eq!(d.progress, Progress { numerator: 1, denominator: 1 });
    assert!(e.check_if_completed(at(0)).is_some());
}

#[test]
fn default_config_values() {
    let c = TimerConfig::default();
    assert_eq!(c, config(4, false, false));
    assert_eq!(c.duration_for(TimerState::LongBreak), 900);
    assert_eq!(c.duration_for(TimerState::Paused), 0);
}

#[test]
fn session_ids_count_past_one_digit() {
    let mut e = TimerEngine::new();
    for i in 0..12u64 {
        e.start(at(i)).unwrap();
        e.reset(at(i));
    }
    let d = e.start(at(100)).unwrap();
    assert_eq!(d.current_session.unwrap().id, "work_12");
}
