//! The operations a front end calls, each answering with a [`CommandResult`].
use vstd::prelude::*;
use crate::timer::{ClockReading, TimerConfig, TimerData};
use crate::engine::{
    can_pause, can_start, complete_step, configured, idled, is_due, paused_at, snapshot,
    start_step, state_wf,
};
use crate::manager::TimerManager;

verus! {

/// The answer to a front-end call: data on success, a message on failure.
#[derive(Debug)]
pub struct CommandResult<T> {
    pub success: bool,
    pub data: Option<T>,
    pub error: Option<String>,
}

impl<T> CommandResult<T> {
    pub fn success(data: T) -> (r: Self)
        ensures
            r.success,
            r.data == Some(data),
            r.error is None,
    {
        CommandResult { success: true, data: Some(data), error: None }
    }

    pub fn error(message: String) -> (r: Self)
        ensures
            !r.success,
            r.data is None,
            r.error == Some(message),
    {
        CommandResult { success: false, data: None, error: Some(message) }
    }
}

/// The answer to a completion poll: the state after the poll, and whether
/// the poll completed a session.
#[derive(Debug, Clone)]
pub struct TimerTickData {
    pub timer_data: TimerData,
    pub session_completed: bool,
}

/// Wraps an operation's outcome: its data on success, its message on failure.
fn answer<T>(outcome: Result<T, String>) -> (r: CommandResult<T>)
    ensures
        r.success == outcome is Ok,
        outcome is Ok ==> r.data == Some(outcome->Ok_0) && r.error is None,
        outcome is Err ==> r.data is None && r.error == Some(outcome->Err_0),
{
    match outcome {
        Ok(data) => CommandResult::success(data),
        Err(err) => CommandResult::error(err),
    }
}

pub fn start_timer(timer_manager: &mut TimerManager) -> (r: Result<CommandResult<TimerData>, String>)
    requires
        state_wf(old(timer_manager)@),
    ensures
        state_wf(final(timer_manager)@),
        r is Ok,
        r->Ok_0.success <==> can_start(old(timer_manager)@.current_state),
        r->Ok_0.success ==> exists|t: ClockReading|
            #[trigger] start_step(old(timer_manager)@, t, final(timer_manager)@)
                && r->Ok_0.data == Some(snapshot(final(timer_manager)@, t)),
        !r->Ok_0.success ==> final(timer_manager)@ == old(timer_manager)@ && r->Ok_0.error
            is Some && r->Ok_0.error->Some_0@ == "Cannot start timer in current state"@,
{
    Ok(answer(timer_manager.start_timer()))
}

pub fn pause_timer(timer_manager: &mut TimerManager) -> (r: Result<CommandResult<TimerData>, String>)
    requires
        state_wf(old(timer_manager)@),
    ensures
        state_wf(final(timer_manager)@),
        r is Ok,
        r->Ok_0.success <==> can_pause(old(timer_manager)@.current_state),
        r->Ok_0.success ==> exists|t: ClockReading|
            #[trigger] paused_at(old(timer_manager)@, t) == final(timer_manager)@
                && r->Ok_0.data == Some(snapshot(final(timer_manager)@, t)),
        !r->Ok_0.success ==> final(timer_manager)@ == old(timer_manager)@ && r->Ok_0.error
            is Some && r->Ok_0.error->Some_0@ == "Cannot pause timer in current state"@,
{
    Ok(answer(timer_manager.pause_timer()))
}

pub fn reset_timer(timer_manager: &mut TimerManager) -> (r: Result<CommandResult<TimerData>, String>)
    requires
        state_wf(old(timer_manager)@),
    ensures
        state_wf(final(timer_manager)@),
        final(timer_manager)@ == idled(old(timer_manager)@),
        r is Ok,
        r->Ok_0.success,
        exists|t: ClockReading|
            #[trigger] snapshot(final(timer_manager)@, t) == r->Ok_0.data->Some_0,
{
    Ok(answer(timer_manager.reset_timer()))
}

pub fn get_timer_state(timer_manager: &TimerManager) -> (r: Result<CommandResult<TimerData>, String>)
    ensures
        r is Ok,
        r->Ok_0.success,
        exists|t: ClockReading| #[trigger] snapshot(timer_manager@, t) == r->Ok_0.data->Some_0,
{
    Ok(answer(timer_manager.get_timer_state()))
}

pub fn update_timer_config(timer_manager: &mut TimerManager, config: TimerConfig) -> (r: Result<
    CommandResult<TimerData>,
    String,
>)
    requires
        state_wf(old(timer_manager)@),
    ensures
        state_wf(final(timer_manager)@),
        final(timer_manager)@ == configured(old(timer_manager)@, config),
        r is Ok,
        r->Ok_0.success,
        exists|t: ClockReading|
            #[trigger] snapshot(final(timer_manager)@, t) == r->Ok_0.data->Some_0,
{
    Ok(answer(timer_manager.update_config(config)))
}

pub fn get_timer_config(timer_manager: &TimerManager) -> (r: Result<CommandResult<TimerConfig>, String>)
    ensures
        r is Ok,
        r->Ok_0.success,
        r->Ok_0.data == Some(timer_manager@.config),
{
    Ok(answer(timer_manager.get_config()))
}

pub fn complete_session(timer_manager: &mut TimerManager) -> (r: Result<CommandResult<TimerData>, String>)
    requires
        state_wf(old(timer_manager)@),
    ensures
        state_wf(final(timer_manager)@),
        r is Ok,
        r->Ok_0.success,
        exists|t: ClockReading|
            #[trigger] complete_step(old(timer_manager)@, t, final(timer_manager)@)
                && r->Ok_0.data == Some(snapshot(final(timer_manager)@, t)),
{
    Ok(answer(timer_manager.complete_session()))
}

/// Polls for completion, then reports the state after the poll and whether
/// the poll completed a session.
pub fn check_timer_completion(timer_manager: &mut TimerManager) -> (r: Result<
    CommandResult<TimerTickData>,
    String,
>)
    requires
        state_wf(old(timer_manager)@),
    ensures
        state_wf(final(timer_manager)@),
        r is Ok,
        r->Ok_0.success,
        r->Ok_0.data is Some,
        exists|t: ClockReading|
            #[trigger] is_due(old(timer_manager)@, t) == r->Ok_0.data->Some_0.session_completed
                && (r->Ok_0.data->Some_0.session_completed ==> complete_step(
                old(timer_manager)@,
                t,
                final(timer_manager)@,
            )) && (!r->Ok_0.data->Some_0.session_completed ==> final(timer_manager)@ == old(
                timer_manager,
            )@),
        exists|t: ClockReading|
            #[trigger] snapshot(final(timer_manager)@, t) == r->Ok_0.data->Some_0.timer_data,
{
    match timer_manager.check_if_completed() {
        Ok(completed_data) => {
            let current_data = match timer_manager.get_timer_state() {
                Ok(d) => d,
                Err(e) => {
                    return Err(e);
                },
            };
            let tick_data = TimerTickData {
                timer_data: current_data,
                session_completed: completed_data.is_some(),
            };
            Ok(CommandResult::success(tick_data))
        },
        Err(err) => Ok(CommandResult::error(err)),
    }
}

} // verus!
