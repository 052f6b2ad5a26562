use sonic_colors_autosplitter::decisions::{
    game_time, is_loading, reset, split, start, RUN_IDLE, RUN_STARTED, UNRANKED,
};
use sonic_colors_autosplitter::levels::{Levels, LEVEL_COUNT};
use sonic_colors_autosplitter::settings::Settings;
use sonic_colors_autosplitter::snapshot::Snapshot;
use sonic_colors_autosplitter::watcher::{Pair, Watcher};
use sonic_colors_autosplitter::watchers::{update_loop, GameMode, TimerState, Watchers};

fn paired<T>(old: T, current: T) -> Watcher<T> {
    Watcher::Paired(Pair { old, current })
}

/// A state in which every value has been sampled twice and nothing moves.
fn quiet(mode: GameMode) -> Watchers {
    Watchers {
        levelid: paired(Levels::NoLevel, Levels::NoLevel),
        igt: paired(0, 0),
        goalringreached: paired(false, false),
        eggshuttle_totalstages: paired(0, 0),
        eggshuttle_progressiveid: paired(0, 0),
        runstart: paired(0, 0),
        tr1rank: paired(0, 0),
        accumulatedigt: 0,
        currentgamemode: mode,
    }
}

fn campaign(runstart: (u8, u8), rank: i8) -> Watchers {
    Watchers {
        runstart: paired(runstart.0, runstart.1),
        tr1rank: paired(rank, rank),
        ..quiet(GameMode::AnyPercent)
    }
}

fn leaving(level: Levels, ring: (bool, bool), mode: GameMode) -> Watchers {
    Watchers {
        levelid: paired(level, Levels::NoLevel),
        goalringreached: paired(ring.0, ring.1),
        ..quiet(mode)
    }
}

fn shuttle(stage: (u8, u8), total: u8, ring: (bool, bool)) -> Watchers {
    Watchers {
        levelid: paired(Levels::SweetMountainAct1, Levels::SweetMountainAct2),
        goalringreached: paired(ring.0, ring.1),
        eggshuttle_progressiveid: paired(stage.0, stage.1),
        eggshuttle_totalstages: paired(total, total),
        ..quiet(GameMode::EggShuttle)
    }
}

#[test]
fn markers_have_the_games_codes() {
    assert_eq!(RUN_IDLE, 35);
    assert_eq!(RUN_STARTED, 110);
    assert_eq!(UNRANKED, -1);
}

#[test]
fn campaign_starts_on_idle_then_started() {
    let settings = Settings::default();
    assert!(start(&campaign((35, 110), -1), &settings));
}

#[test]
fn campaign_does_not_start_on_other_markers() {
    let settings = Settings::default();
    assert!(!start(&campaign((35, 35), -1), &settings));
    assert!(!start(&campaign((100, 110), -1), &settings));
    assert!(!start(&campaign((110, 110), -1), &settings));
    assert!(!start(&campaign((110, 35), -1), &settings));
    assert!(!start(&campaign((35, 111), -1), &settings));
    assert!(!start(&campaign((34, 110), -1), &settings));
    assert!(!start(&campaign((0, 0), -1), &settings));
}

#[test]
fn campaign_start_fires_for_no_other_marker_pair() {
    let settings = Settings { start_sonic_simulator: false, ..Settings::default() };
    for old in 0..=255u8 {
        for current in 0..=255u8 {
            assert_eq!(
                start(&campaign((old, current), -1), &settings),
                old == 35 && current == 110
            );
        }
    }
}

#[test]
fn campaign_does_not_start_when_ranked() {
    let settings = Settings::default();
    for rank in [0i8, 1, 5, -2, i8::MIN, i8::MAX] {
        assert!(!start(&campaign((35, 110), rank), &settings));
    }
    let mut watchers = campaign((35, 110), -1);
    watchers.tr1rank = paired(-1, 0);
    assert!(!start(&watchers, &settings));
    watchers.tr1rank = paired(3, -1);
    assert!(start(&watchers, &settings));
}

#[test]
fn campaign_start_can_be_switched_off() {
    let settings = Settings { start_anypercent: false, ..Settings::default() };
    assert!(!start(&campaign((35, 110), -1), &settings));
}

#[test]
fn start_over_two_ticks_of_samples() {
    let settings = Settings::default();
    let mut watchers = Watchers::new();
    let idle = Snapshot { runstart: 35, tr1rank: -1, ..Snapshot::new() };
    let started = Snapshot { runstart: 110, tr1rank: -1, ..Snapshot::new() };
    update_loop(&mut watchers, &idle, TimerState::NotRunning);
    assert!(!start(&watchers, &settings));
    update_loop(&mut watchers, &started, TimerState::NotRunning);
    assert!(start(&watchers, &settings));
    update_loop(&mut watchers, &started, TimerState::NotRunning);
    assert!(!start(&watchers, &settings));
}

#[test]
fn simulator_starts_from_no_level() {
    let settings = Settings::default();
    let mut watchers = quiet(GameMode::AnyPercent);
    watchers.levelid = paired(Levels::NoLevel, Levels::SonicSimulatorAct1_1);
    assert!(start(&watchers, &settings));
    assert!(!start(&watchers, &Settings { start_sonic_simulator: false, ..settings }));
    assert!(start(&watchers, &Settings { start_anypercent: false, ..settings }));
    watchers.levelid = paired(Levels::SonicSimulatorAct1_2, Levels::SonicSimulatorAct1_1);
    assert!(!start(&watchers, &settings));
    watchers.levelid = paired(Levels::NoLevel, Levels::SonicSimulatorAct1_2);
    assert!(!start(&watchers, &settings));
    watchers.levelid = paired(Levels::NoLevel, Levels::TropicalResortAct1);
    assert!(!start(&watchers, &settings));
}

#[test]
fn shuttle_starts_in_its_first_stage() {
    let settings = Settings::default();
    let mut watchers = quiet(GameMode::EggShuttle);
    watchers.levelid = paired(Levels::NoLevel, Levels::TropicalResortAct1);
    assert!(start(&watchers, &settings));
    assert!(!start(&watchers, &Settings { start_egg_shuttle: false, ..settings }));
    watchers.levelid = paired(Levels::TropicalResortAct1, Levels::TropicalResortAct1);
    assert!(!start(&watchers, &settings));
    watchers.igt = paired(1800, 0);
    assert!(start(&watchers, &settings));
    watchers.igt = paired(1800, 10);
    assert!(!start(&watchers, &settings));
    watchers.igt = paired(1800, 0);
    watchers.levelid = paired(Levels::NoLevel, Levels::TropicalResortAct2);
    assert!(!start(&watchers, &settings));
}

#[test]
fn shuttle_ignores_the_campaign_markers() {
    let settings = Settings::default();
    let mut watchers = campaign((35, 110), -1);
    watchers.currentgamemode = GameMode::EggShuttle;
    assert!(!start(&watchers, &settings));
    watchers.levelid = paired(Levels::NoLevel, Levels::SonicSimulatorAct1_1);
    assert!(!start(&watchers, &settings));
}

#[test]
fn start_waits_for_every_pair() {
    let settings = Settings::default();
    let ready = campaign((35, 110), -1);
    assert!(start(&ready, &settings));
    assert!(!start(&Watchers { levelid: Watcher::Single(Levels::NoLevel), ..ready }, &settings));
    assert!(!start(&Watchers { igt: Watcher::Single(0), ..ready }, &settings));
    assert!(!start(&Watchers { runstart: Watcher::Single(110), ..ready }, &settings));
    assert!(!start(&Watchers { tr1rank: Watcher::Empty, ..ready }, &settings));
    assert!(!start(&Watchers::new(), &settings));
}

#[test]
fn split_never_fires_for_a_level_switched_off() {
    let rings = [(false, false), (false, true), (true, false), (true, true)];
    for position in 0..LEVEL_COUNT {
        let level = Levels::from_ordinal(position);
        let mut settings = Settings::default();
        settings.set_split(level, false);
        for ring in rings {
            assert!(!split(&leaving(level, ring, GameMode::AnyPercent), &settings));
            assert!(!split(&leaving(level, ring, GameMode::EggShuttle), &settings));
            for stage in [(0u8, 1u8), (3, 4), (4, 4)] {
                let mut watchers = shuttle(stage, 5, ring);
                watchers.levelid = paired(level, Levels::NoLevel);
                assert!(!split(&watchers, &settings));
            }
        }
    }
}

#[test]
fn split_never_fires_after_no_level() {
    let settings = Settings::default();
    for ring in [(false, false), (false, true), (true, false), (true, true)] {
        assert!(!split(&leaving(Levels::NoLevel, ring, GameMode::AnyPercent), &settings));
        assert!(!split(&leaving(Levels::NoLevel, ring, GameMode::EggShuttle), &settings));
    }
}

#[test]
fn campaign_level_splits_when_the_ring_flag_is_cleared() {
    let settings = Settings::default();
    for position in 0..LEVEL_COUNT {
        let level = Levels::from_ordinal(position);
        if level == Levels::TerminalVelocityAct2 {
            continue;
        }
        assert!(split(&leaving(level, (true, false), GameMode::AnyPercent), &settings));
        assert!(!split(&leaving(level, (false, true), GameMode::AnyPercent), &settings));
        assert!(!split(&leaving(level, (false, false), GameMode::AnyPercent), &settings));
        assert!(!split(&leaving(level, (true, true), GameMode::AnyPercent), &settings));
    }
}

#[test]
fn final_stage_splits_when_the_ring_is_reached() {
    let settings = Settings::default();
    let level = Levels::TerminalVelocityAct2;
    assert!(split(&leaving(level, (false, true), GameMode::AnyPercent), &settings));
    assert!(!split(&leaving(level, (true, false), GameMode::AnyPercent), &settings));
    assert!(!split(&leaving(level, (false, false), GameMode::AnyPercent), &settings));
    assert!(!split(&leaving(level, (true, true), GameMode::AnyPercent), &settings));
}

#[test]
fn ring_never_raised_gives_no_split() {
    let settings = Settings::default();
    let mut watchers = leaving(Levels::TropicalResortAct1, (false, false), GameMode::AnyPercent);
    watchers.igt = paired(1800, 0);
    assert!(!split(&watchers, &settings));
    let mut watchers = leaving(Levels::TerminalVelocityAct2, (false, true), GameMode::AnyPercent);
    watchers.igt = paired(1800, 0);
    assert!(split(&watchers, &settings));
}

#[test]
fn shuttle_splits_when_the_stage_counter_moves_on_by_one() {
    let settings = Settings::default();
    assert!(split(&shuttle((0, 1), 5, (false, false)), &settings));
    assert!(split(&shuttle((2, 3), 5, (true, true)), &settings));
    assert!(!split(&shuttle((2, 2), 5, (true, false)), &settings));
    assert!(!split(&shuttle((2, 4), 5, (false, true)), &settings));
    assert!(!split(&shuttle((2, 1), 5, (false, true)), &settings));
    assert!(!split(&shuttle((255, 0), 5, (false, true)), &settings));
    assert!(split(&shuttle((254, 255), 5, (false, false)), &settings));
}

#[test]
fn last_shuttle_stage_splits_on_the_goal_ring() {
    let settings = Settings::default();
    assert!(split(&shuttle((4, 4), 5, (false, true)), &settings));
    assert!(!split(&shuttle((4, 5), 5, (false, false)), &settings));
    assert!(!split(&shuttle((4, 5), 5, (true, false)), &settings));
    assert!(!split(&shuttle((4, 4), 5, (true, true)), &settings));
    assert!(split(&shuttle((44, 44), 45, (false, true)), &settings));
    assert!(split(&shuttle((0, 0), 1, (false, true)), &settings));
}

#[test]
fn empty_shuttle_has_no_last_stage() {
    let settings = Settings::default();
    assert!(split(&shuttle((255, 0), 0, (false, true)), &settings) == false);
    assert!(split(&shuttle((0, 1), 0, (false, false)), &settings));
    assert!(!split(&shuttle((0, 0), 0, (false, true)), &settings));
}

#[test]
fn last_shuttle_stage_goes_by_the_current_count() {
    let settings = Settings::default();
    let mut watchers = shuttle((4, 5), 5, (false, true));
    watchers.eggshuttle_totalstages = paired(9, 5);
    assert!(split(&watchers, &settings));
    watchers.eggshuttle_totalstages = paired(5, 9);
    watchers.goalringreached = paired(false, false);
    assert!(split(&watchers, &settings));
}

#[test]
fn split_waits_for_every_pair_it_reads() {
    let settings = Settings::default();
    let campaign = leaving(Levels::TropicalResortAct1, (true, false), GameMode::AnyPercent);
    assert!(split(&campaign, &settings));
    let unseen = Watchers { levelid: Watcher::Single(Levels::TropicalResortAct1), ..campaign };
    assert!(!split(&unseen, &settings));
    assert!(!split(&Watchers { goalringreached: Watcher::Single(false), ..campaign }, &settings));
    let alone = Watchers {
        eggshuttle_progressiveid: Watcher::Empty,
        eggshuttle_totalstages: Watcher::Empty,
        igt: Watcher::Empty,
        runstart: Watcher::Empty,
        tr1rank: Watcher::Empty,
        ..campaign
    };
    assert!(split(&alone, &settings));

    let egg = shuttle((0, 1), 5, (false, false));
    assert!(split(&egg, &settings));
    assert!(!split(&Watchers { goalringreached: Watcher::Empty, ..egg }, &settings));
    assert!(!split(&Watchers { eggshuttle_progressiveid: Watcher::Single(1), ..egg }, &settings));
    assert!(!split(&Watchers { eggshuttle_totalstages: Watcher::Single(5), ..egg }, &settings));
}

#[test]
fn campaign_resets_on_started_then_idle() {
    let settings = Settings::default();
    assert!(reset(&campaign((110, 35), -1), &settings));
    assert!(reset(&campaign((110, 35), 4), &settings));
    assert!(!reset(&campaign((35, 110), -1), &settings));
    assert!(!reset(&campaign((110, 110), -1), &settings));
    assert!(!reset(&campaign((35, 35), -1), &settings));
    assert!(!reset(&campaign((110, 0), -1), &settings));
    assert!(!reset(&campaign((110, 35), -1), &Settings { reset_anypercent: false, ..settings }));
    assert!(reset(&campaign((110, 35), -1), &Settings { reset_egg_shuttle: false, ..settings }));
    let unseen = Watchers { runstart: Watcher::Single(35), ..campaign((110, 35), -1) };
    assert!(!reset(&unseen, &settings));
    let alone = Watchers { runstart: paired(110, 35), ..Watchers::new() };
    assert!(reset(&alone, &settings));
}

#[test]
fn shuttle_resets_when_the_clock_restarts_without_goal_ring() {
    let settings = Settings::default();
    let mut watchers = quiet(GameMode::EggShuttle);
    watchers.igt = paired(1800, 0);
    assert!(reset(&watchers, &settings));
    assert!(!reset(&watchers, &Settings { reset_egg_shuttle: false, ..settings }));
    assert!(reset(&watchers, &Settings { reset_anypercent: false, ..settings }));
    watchers.goalringreached = paired(false, true);
    assert!(reset(&watchers, &settings));
    watchers.goalringreached = paired(true, false);
    assert!(!reset(&watchers, &settings));
    watchers.goalringreached = paired(true, true);
    assert!(!reset(&watchers, &settings));
    watchers.goalringreached = paired(false, false);
    watchers.igt = paired(0, 0);
    assert!(!reset(&watchers, &settings));
    watchers.igt = paired(1800, 1810);
    assert!(!reset(&watchers, &settings));
    watchers.igt = paired(1800, 0);
    watchers.runstart = paired(110, 35);
    assert!(reset(&watchers, &settings));
    assert!(!reset(&Watchers { igt: Watcher::Single(0), ..watchers }, &settings));
    assert!(!reset(&Watchers { goalringreached: Watcher::Empty, ..watchers }, &settings));
}

#[test]
fn shuttle_does_not_reset_on_the_campaign_marker() {
    let settings = Settings::default();
    let mut watchers = campaign((110, 35), -1);
    watchers.currentgamemode = GameMode::EggShuttle;
    assert!(!reset(&watchers, &settings));
}

#[test]
fn game_is_always_loading() {
    let settings = Settings::default();
    assert_eq!(is_loading(&Watchers::new(), &settings), Some(true));
    assert_eq!(is_loading(&campaign((35, 110), -1), &Settings::uniform(false)), Some(true));
}

#[test]
fn game_time_adds_the_current_level_to_the_accumulated_time() {
    let settings = Settings::default();
    let mut watchers = quiet(GameMode::AnyPercent);
    watchers.accumulatedigt = 61_000;
    watchers.igt = paired(1200, 1800);
    assert_eq!(game_time(&watchers, &settings), Some(62_800));
    watchers.igt = paired(1800, 0);
    assert_eq!(game_time(&watchers, &settings), Some(61_000));
    watchers.accumulatedigt = 0;
    watchers.igt = paired(0, 250);
    assert_eq!(game_time(&watchers, &settings), Some(250));
}

#[test]
fn game_time_without_a_pair_is_the_accumulated_time() {
    let settings = Settings::default();
    let mut watchers = Watchers::new();
    assert_eq!(game_time(&watchers, &settings), Some(0));
    watchers.accumulatedigt = 4300;
    assert_eq!(game_time(&watchers, &settings), Some(4300));
    watchers.igt = Watcher::Single(900);
    assert_eq!(game_time(&watchers, &settings), Some(4300));
}

#[test]
fn nothing_fires_while_the_level_stays_the_same() {
    let settings = Settings::default();
    let mut watchers = Watchers::new();
    let ticks = [
        Snapshot { level: Levels::NoLevel, igt: 0, ..Snapshot::new() },
        Snapshot { level: Levels::TropicalResortAct1, igt: 0, ..Snapshot::new() },
        Snapshot { level: Levels::TropicalResortAct1, igt: 1200, ..Snapshot::new() },
        Snapshot { level: Levels::TropicalResortAct1, igt: 1800, ..Snapshot::new() },
    ];
    for snapshot in ticks.iter() {
        update_loop(&mut watchers, snapshot, TimerState::NotRunning);
        assert!(!start(&watchers, &settings));
        update_loop(&mut watchers, snapshot, TimerState::Running);
        assert!(!start(&watchers, &settings));
        assert!(!split(&watchers, &settings));
        assert!(!reset(&watchers, &settings));
    }
    assert_eq!(watchers.accumulatedigt, 0);
}

#[test]
fn nothing_fires_after_a_single_tick() {
    let settings = Settings::default();
    let snapshot = Snapshot {
        level: Levels::TropicalResortAct1,
        igt: 0,
        goal_ring: true,
        eggshuttle_totalstages: 1,
        eggshuttle_progressiveid: 0,
        runstart: 110,
        tr1rank: -1,
    };
    for mode in [GameMode::AnyPercent, GameMode::EggShuttle] {
        let mut watchers = Watchers::new();
        watchers.currentgamemode = mode;
        update_loop(&mut watchers, &snapshot, TimerState::Running);
        assert!(!start(&watchers, &settings));
        assert!(!split(&watchers, &settings));
        assert!(!reset(&watchers, &settings));
    }
}
