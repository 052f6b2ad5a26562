//! The decisions of a tick: whether to start, split or reset the timer, and
//! what the game time is. Each compares the last two samples of the values
//! it reads; where one of them has not been sampled twice yet, nothing is
//! decided.

use vstd::prelude::*;
use crate::levels::Levels;
use crate::settings::Settings;
use crate::snapshot::Snapshot;
use crate::watcher::Pair;
use crate::watchers::{crossed_boundary, GameMode, TimerState, Watchers};

verus! {

/// The run-state code of the game while no run is under way.
pub const RUN_IDLE: u8 = 35;

/// The run-state code of the game once a run is under way.
pub const RUN_STARTED: u8 = 110;

/// The time-trial rank while none has been given.
pub const UNRANKED: i8 = -1;

/// The first stage of the Egg Shuttle.
pub open spec fn shuttle_first_stage() -> Levels {
    Levels::TropicalResortAct1
}

/// The first stage of the Sonic Simulator.
pub open spec fn simulator_first_stage() -> Levels {
    Levels::SonicSimulatorAct1_1
}

/// The last stage of a run of the whole game.
pub open spec fn final_stage() -> Levels {
    Levels::TerminalVelocityAct2
}

/// The goal ring has just been reached.
pub open spec fn ring_raised(ring: Pair<bool>) -> bool {
    !ring.old && ring.current
}

/// The goal ring had been reached and the flag has just been cleared.
pub open spec fn ring_cleared(ring: Pair<bool>) -> bool {
    ring.old && !ring.current
}

/// Whether an Egg Shuttle run has just begun: the game is in the first
/// stage, having been in no level or having just restarted its clock.
pub open spec fn shuttle_begins(level: Pair<Levels>, igt: Pair<i64>) -> bool {
    level.current == shuttle_first_stage() && (level.old == Levels::NoLevel || crossed_boundary(
        Some(igt),
    ))
}

/// Whether a run of the whole game has just begun: the run-state code went
/// from idle to started while the time trial is unranked.
pub open spec fn campaign_begins(runstart: Pair<u8>, rank: Pair<i8>) -> bool {
    rank.current == UNRANKED && runstart.old == RUN_IDLE && runstart.current == RUN_STARTED
}

/// Whether the Sonic Simulator has just been entered from no level.
pub open spec fn simulator_begins(level: Pair<Levels>) -> bool {
    level.current == simulator_first_stage() && level.old == Levels::NoLevel
}

/// When the timer is to be started.
pub open spec fn should_start(watchers: Watchers, settings: Settings) -> bool {
    &&& watchers.levelid@ matches Some(level)
    &&& watchers.igt@ matches Some(igt)
    &&& watchers.runstart@ matches Some(runstart)
    &&& watchers.tr1rank@ matches Some(rank)
    &&& match watchers.currentgamemode {
        GameMode::EggShuttle => settings.start_egg_shuttle && shuttle_begins(level, igt),
        GameMode::AnyPercent => {
            ||| settings.start_anypercent && campaign_begins(runstart, rank)
            ||| settings.start_sonic_simulator && simulator_begins(level)
        },
    }
}

/// Whether an Egg Shuttle stage has just been completed: leaving the last
/// stage shows by the goal ring, leaving any other by the stage counter
/// moving on by exactly one.
pub open spec fn shuttle_stage_done(stage: Pair<u8>, total: Pair<u8>, ring: Pair<bool>) -> bool {
    if stage.old + 1 == total.current {
        ring_raised(ring)
    } else {
        stage.current == stage.old + 1
    }
}

/// Whether a level of a run of the whole game has just been completed: the
/// final stage ends when the goal ring is reached, any other when the flag
/// is cleared again on the way out.
pub open spec fn campaign_level_done(left: Levels, ring: Pair<bool>) -> bool {
    if left == final_stage() {
        ring_raised(ring)
    } else {
        ring_cleared(ring)
    }
}

/// When the timer is to be split.
pub open spec fn should_split(watchers: Watchers, settings: Settings) -> bool {
    &&& watchers.levelid@ matches Some(level)
    &&& settings.split_flag(level.old)
    &&& watchers.goalringreached@ matches Some(ring)
    &&& match watchers.currentgamemode {
        GameMode::EggShuttle => {
            &&& watchers.eggshuttle_progressiveid@ matches Some(stage)
            &&& watchers.eggshuttle_totalstages@ matches Some(total)
            &&& shuttle_stage_done(stage, total, ring)
        },
        GameMode::AnyPercent => campaign_level_done(level.old, ring),
    }
}

/// When the timer is to be reset.
pub open spec fn should_reset(watchers: Watchers, settings: Settings) -> bool {
    match watchers.currentgamemode {
        GameMode::EggShuttle => {
            &&& watchers.igt@ matches Some(igt)
            &&& watchers.goalringreached@ matches Some(ring)
            &&& settings.reset_egg_shuttle
            &&& crossed_boundary(Some(igt))
            &&& !ring.old
        },
        GameMode::AnyPercent => {
            &&& watchers.runstart@ matches Some(runstart)
            &&& settings.reset_anypercent
            &&& runstart.old == RUN_STARTED
            &&& runstart.current == RUN_IDLE
        },
    }
}

/// The game time: the accumulated time of the levels already left and the
/// in-game time of the current one, in milliseconds. While the in-game time
/// cannot be compared yet, the current level counts as zero.
pub open spec fn game_time_of(watchers: Watchers) -> int {
    watchers.accumulatedigt + match watchers.igt@ {
        Some(igt) => igt.current as int,
        None => 0,
    }
}

/// Whether the game time can be held as a count of milliseconds.
pub open spec fn game_time_fits(watchers: Watchers) -> bool {
    i64::MIN <= game_time_of(watchers) <= i64::MAX
}

/// Whether to start the timer on this tick.
pub fn start(watchers: &Watchers, settings: &Settings) -> (fire: bool)
    ensures
        fire == should_start(*watchers, *settings),
{
    let Some(level) = watchers.levelid.pair() else {
        return false;
    };
    let Some(igt) = watchers.igt.pair() else {
        return false;
    };
    let Some(runstart) = watchers.runstart.pair() else {
        return false;
    };
    let Some(rank) = watchers.tr1rank.pair() else {
        return false;
    };
    match watchers.currentgamemode {
        GameMode::EggShuttle => {
            settings.start_egg_shuttle && level.current == Levels::TropicalResortAct1 && (level.old
                == Levels::NoLevel || (igt.old != 0 && igt.current == 0))
        },
        GameMode::AnyPercent => {
            (settings.start_anypercent && rank.current == UNRANKED && runstart.old == RUN_IDLE
                && runstart.current == RUN_STARTED) || (settings.start_sonic_simulator
                && level.current == Levels::SonicSimulatorAct1_1 && level.old == Levels::NoLevel)
        },
    }
}

/// Whether to split on this tick. A level whose split is switched off never
/// splits.
pub fn split(watchers: &Watchers, settings: &Settings) -> (fire: bool)
    ensures
        fire == should_split(*watchers, *settings),
        watchers.levelid@ matches Some(level) && !settings.split_flag(level.old) ==> !fire,
{
    let Some(level) = watchers.levelid.pair() else {
        return false;
    };
    if !settings.split_enabled(level.old) {
        return false;
    }
    let Some(ring) = watchers.goalringreached.pair() else {
        return false;
    };
    match watchers.currentgamemode {
        GameMode::EggShuttle => {
            let Some(stage) = watchers.eggshuttle_progressiveid.pair() else {
                return false;
            };
            let Some(total) = watchers.eggshuttle_totalstages.pair() else {
                return false;
            };
            if total.current > 0 && stage.old == total.current - 1 {
                ring.current && !ring.old
            } else {
                stage.old < u8::MAX && stage.current == stage.old + 1
            }
        },
        GameMode::AnyPercent => {
            if level.old == Levels::TerminalVelocityAct2 {
                ring.current && !ring.old
            } else {
                !ring.current && ring.old
            }
        },
    }
}

/// Whether to reset the timer on this tick.
pub fn reset(watchers: &Watchers, settings: &Settings) -> (fire: bool)
    ensures
        fire == should_reset(*watchers, *settings),
{
    match watchers.currentgamemode {
        GameMode::EggShuttle => {
            let Some(igt) = watchers.igt.pair() else {
                return false;
            };
            let Some(ring) = watchers.goalringreached.pair() else {
                return false;
            };
            settings.reset_egg_shuttle && igt.old != 0 && igt.current == 0 && !ring.old
        },
        GameMode::AnyPercent => {
            let Some(runstart) = watchers.runstart.pair() else {
                return false;
            };
            settings.reset_anypercent && runstart.old == RUN_STARTED && runstart.current
                == RUN_IDLE
        },
    }
}

/// Whether the game is loading. The in-game time is taken from the game
/// itself, so the timer's own clock always stays paused.
pub fn is_loading(_watchers: &Watchers, _settings: &Settings) -> (loading: Option<bool>)
    ensures
        loading == Some(true),
{
    Some(true)
}

/// Whether [`game_time`] can hold the game time of this state.
pub fn can_tell_game_time(watchers: &Watchers) -> (fits: bool)
    ensures
        fits == game_time_fits(*watchers),
{
    match watchers.igt.pair() {
        Some(igt) => watchers.accumulatedigt.checked_add(igt.current).is_some(),
        None => true,
    }
}

/// The game time to show, in milliseconds.
pub fn game_time(watchers: &Watchers, _settings: &Settings) -> (time: Option<i64>)
    requires
        game_time_fits(*watchers),
    ensures
        time == Some(game_time_of(*watchers) as i64),
{
    match watchers.igt.pair() {
        Some(igt) => Some(watchers.accumulatedigt + igt.current),
        None => Some(watchers.accumulatedigt),
    }
}

/// A split is due only after a level whose split is switched on.
pub proof fn lemma_split_needs_flag(watchers: Watchers, settings: Settings)
    requires
        should_split(watchers, settings),
    ensures
        watchers.levelid@ matches Some(level) && settings.split_flag(level.old),
{
}

/// Nothing is started, split or reset before every value that the decision
/// reads has been sampled twice. After a single tick that is so whatever was
/// sampled.
pub proof fn lemma_nothing_after_one_tick(
    snapshot: Snapshot,
    state: TimerState,
    settings: Settings,
)
    ensures
        !should_start(Watchers::initial().ticked(snapshot, state), settings),
        !should_split(Watchers::initial().ticked(snapshot, state), settings),
        !should_reset(Watchers::initial().ticked(snapshot, state), settings),
{
}

/// In a run of the whole game, with its start switched on, the timer starts
/// exactly when two consecutive ticks read the run-state code as idle and
/// then as started, and the second reads the time trial as unranked. This is
/// stated for the ticks on which the Sonic Simulator does not start the
/// timer.
pub proof fn lemma_campaign_start(
    watchers: Watchers,
    first: (Snapshot, TimerState),
    second: (Snapshot, TimerState),
    settings: Settings,
)
    requires
        watchers.ticked(first.0, first.1).ticked(second.0, second.1).currentgamemode
            == GameMode::AnyPercent,
        settings.start_anypercent,
        !(settings.start_sonic_simulator && simulator_begins(
            Pair { old: first.0.level, current: second.0.level },
        )),
    ensures
        should_start(watchers.ticked(first.0, first.1).ticked(second.0, second.1), settings) <==> (
        first.0.runstart == RUN_IDLE && second.0.runstart == RUN_STARTED && second.0.tr1rank
            == UNRANKED),
{
}

} // verus!
