//! The order of a tick: which commands go to the timer, and in which order,
//! for the state the timer is in.
//!
//! A tick has two phases, and the host reads the timer's state before each.
//! While a run is under way, the clock is set and the run is reset or split;
//! a reset takes precedence, so that a tick that resets never splits as
//! well. While the timer is idle, only a start is considered.

use vstd::prelude::*;
use crate::decisions::{
    game_time, game_time_fits, game_time_of, is_loading, reset, should_reset, should_split,
    should_start, split, start,
};
use crate::settings::Settings;
use crate::watchers::{TimerState, Watchers};

verus! {

/// A command to the timer.
#[derive(Clone, Copy, Debug, PartialEq, Eq, Structural)]
pub enum Command {
    /// Start a run.
    Start,
    /// Split: the current segment is complete.
    Split,
    /// Reset the run.
    Reset,
    /// Set the game time, in milliseconds.
    SetGameTime(i64),
    /// Stop the timer's own game-time clock.
    PauseGameTime,
    /// Let the timer's own game-time clock run.
    ResumeGameTime,
}

/// Whether a command moves the timer from one state to another: a start, a
/// split or a reset.
pub open spec fn is_transition(command: Command) -> bool {
    command == Command::Start || command == Command::Split || command == Command::Reset
}

/// Whether a run is under way in `state`.
pub open spec fn in_run(state: TimerState) -> bool {
    state == TimerState::Running || state == TimerState::Paused
}

/// The command that brings the timer's game-time clock in line with whether
/// the game is loading; none where that is not known.
pub open spec fn clock_commands(loading: Option<bool>) -> Seq<Command> {
    match loading {
        Some(true) => seq![Command::PauseGameTime],
        Some(false) => seq![Command::ResumeGameTime],
        None => seq![],
    }
}

/// The command that ends the current segment, if any: a reset where one is
/// due, else a split where one is due.
pub open spec fn segment_commands(watchers: Watchers, settings: Settings) -> Seq<Command> {
    if should_reset(watchers, settings) {
        seq![Command::Reset]
    } else if should_split(watchers, settings) {
        seq![Command::Split]
    } else {
        seq![]
    }
}

/// The commands of the first phase of a tick: while a run is under way, the
/// clock is paused, the game time is set, and the segment is ended where
/// that is due. In any other state there are none.
pub open spec fn run_commands(watchers: Watchers, settings: Settings, state: TimerState) -> Seq<
    Command,
> {
    if in_run(state) {
        clock_commands(Some(true)) + seq![Command::SetGameTime(game_time_of(watchers) as i64)]
            + segment_commands(watchers, settings)
    } else {
        seq![]
    }
}

/// The commands of the second phase of a tick: while the timer is idle and
/// a start is due, the run is started with its clock paused, and the clock
/// is then set as in the first phase. In any other state there are none.
pub open spec fn idle_commands(watchers: Watchers, settings: Settings, state: TimerState) -> Seq<
    Command,
> {
    if state == TimerState::NotRunning && should_start(watchers, settings) {
        seq![Command::Start, Command::PauseGameTime] + clock_commands(Some(true))
    } else {
        seq![]
    }
}

/// Appends to `commands` the command that brings the timer's game-time clock
/// in line with `loading`.
pub fn push_clock_commands(commands: &mut Vec<Command>, loading: Option<bool>)
    ensures
        final(commands)@ == old(commands)@ + clock_commands(loading),
{
    match loading {
        Some(true) => {
            commands.push(Command::PauseGameTime);
        },
        Some(false) => {
            commands.push(Command::ResumeGameTime);
        },
        None => {},
    }
    assert(final(commands)@ =~= old(commands)@ + clock_commands(loading));
}

/// The commands to send, in this order, in the first phase of a tick, with
/// the timer in `state`.
pub fn run_phase(watchers: &Watchers, settings: &Settings, state: TimerState) -> (commands: Vec<
    Command,
>)
    requires
        in_run(state) ==> game_time_fits(*watchers),
    ensures
        commands@ == run_commands(*watchers, *settings, state),
        !(commands@.contains(Command::Reset) && commands@.contains(Command::Split)),
        !commands@.contains(Command::Start),
{
    let mut commands: Vec<Command> = Vec::new();
    if state == TimerState::Running || state == TimerState::Paused {
        push_clock_commands(&mut commands, is_loading(watchers, settings));
        if let Some(time) = game_time(watchers, settings) {
            commands.push(Command::SetGameTime(time));
        }
        if reset(watchers, settings) {
            commands.push(Command::Reset);
        } else if split(watchers, settings) {
            commands.push(Command::Split);
        }
    }
    proof {
        let expected = run_commands(*watchers, *settings, state);
        assert(commands@ =~= expected);
        assert forall|i: int| 0 <= i < expected.len() implies expected[i] != Command::Start by {}
        assert forall|i: int, j: int| 0 <= i < expected.len() && 0 <= j < expected.len() implies !(
        expected[i] == Command::Reset && expected[j] == Command::Split) by {}
    }
    commands
}

/// The commands to send, in this order, in the second phase of a tick, with
/// the timer in `state`.
pub fn idle_phase(watchers: &Watchers, settings: &Settings, state: TimerState) -> (commands: Vec<
    Command,
>)
    ensures
        commands@ == idle_commands(*watchers, *settings, state),
        commands@.len() > 0 ==> state == TimerState::NotRunning && commands@[0] == Command::Start,
{
    let mut commands: Vec<Command> = Vec::new();
    if state == TimerState::NotRunning && start(watchers, settings) {
        commands.push(Command::Start);
        commands.push(Command::PauseGameTime);
        push_clock_commands(&mut commands, is_loading(watchers, settings));
    }
    assert(commands@ =~= idle_commands(*watchers, *settings, state));
    commands
}

/// Whatever the state of the timer, at most one of the two phases of a tick
/// sends commands: a run phase and a start never share a state.
pub proof fn lemma_one_phase_speaks(watchers: Watchers, settings: Settings, state: TimerState)
    ensures
        run_commands(watchers, settings, state).len() == 0 || idle_commands(
            watchers,
            settings,
            state,
        ).len() == 0,
        !in_run(state) && state != TimerState::NotRunning ==> run_commands(
            watchers,
            settings,
            state,
        ).len() == 0 && idle_commands(watchers, settings, state).len() == 0,
{
}

/// A tick sends at most one of start, split and reset, and a tick that
/// resets never splits.
pub proof fn lemma_one_transition(watchers: Watchers, settings: Settings, state: TimerState)
    ensures
        ({
            let sent = run_commands(watchers, settings, state) + idle_commands(
                watchers,
                settings,
                state,
            );
            forall|i: int, j: int|
                0 <= i < j < sent.len() ==> !(is_transition(#[trigger] sent[i]) && is_transition(
                    #[trigger] sent[j],
                ))
        }),
{
}

} // verus!
