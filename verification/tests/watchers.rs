use sonic_colors_autosplitter::levels::Levels;
use sonic_colors_autosplitter::snapshot::Snapshot;
use sonic_colors_autosplitter::watcher::{Pair, Watcher};
use sonic_colors_autosplitter::watchers::{
    update_loop, GameMode, TimerState, Watchers, EGG_SHUTTLE_MAX_STAGES,
};

fn with_time(igt: i64) -> Snapshot {
    Snapshot { level: Levels::TropicalResortAct1, igt, ..Snapshot::new() }
}

fn with_stages(total: u8) -> Snapshot {
    Snapshot { eggshuttle_totalstages: total, ..Snapshot::new() }
}

fn tick(watchers: &mut Watchers, snapshot: &Snapshot, state: TimerState) {
    assert!(watchers.can_tick(snapshot, state));
    update_loop(watchers, snapshot, state);
}

#[test]
fn initial_state_has_seen_nothing() {
    let watchers = Watchers::new();
    assert_eq!(watchers.levelid, Watcher::Empty);
    assert_eq!(watchers.igt, Watcher::Empty);
    assert_eq!(watchers.goalringreached, Watcher::Empty);
    assert_eq!(watchers.eggshuttle_totalstages, Watcher::Empty);
    assert_eq!(watchers.eggshuttle_progressiveid, Watcher::Empty);
    assert_eq!(watchers.runstart, Watcher::Empty);
    assert_eq!(watchers.tr1rank, Watcher::Empty);
    assert_eq!(watchers.accumulatedigt, 0);
    assert_eq!(watchers.currentgamemode, GameMode::AnyPercent);
    assert_eq!(GameMode::default(), GameMode::AnyPercent);
    assert_eq!(Watchers::default().currentgamemode, GameMode::AnyPercent);
}

#[test]
fn every_watcher_takes_its_field() {
    let first = Snapshot {
        level: Levels::PlanetWispAct3,
        igt: 1200,
        goal_ring: false,
        eggshuttle_totalstages: 4,
        eggshuttle_progressiveid: 1,
        runstart: 35,
        tr1rank: 0,
    };
    let second = Snapshot {
        level: Levels::PlanetWispAct4,
        igt: 1800,
        goal_ring: true,
        eggshuttle_totalstages: 5,
        eggshuttle_progressiveid: 2,
        runstart: 110,
        tr1rank: -1,
    };
    let mut watchers = Watchers::new();
    tick(&mut watchers, &first, TimerState::Running);
    assert_eq!(watchers.levelid.pair(), None);
    assert_eq!(watchers.igt.pair(), None);
    assert_eq!(watchers.goalringreached.pair(), None);
    assert_eq!(watchers.eggshuttle_totalstages.pair(), None);
    assert_eq!(watchers.eggshuttle_progressiveid.pair(), None);
    assert_eq!(watchers.runstart.pair(), None);
    assert_eq!(watchers.tr1rank.pair(), None);
    tick(&mut watchers, &second, TimerState::Running);
    assert_eq!(
        watchers.levelid.pair(),
        Some(Pair { old: Levels::PlanetWispAct3, current: Levels::PlanetWispAct4 })
    );
    assert_eq!(watchers.igt.pair(), Some(Pair { old: 1200, current: 1800 }));
    assert_eq!(watchers.goalringreached.pair(), Some(Pair { old: false, current: true }));
    assert_eq!(watchers.eggshuttle_totalstages.pair(), Some(Pair { old: 4, current: 5 }));
    assert_eq!(watchers.eggshuttle_progressiveid.pair(), Some(Pair { old: 1, current: 2 }));
    assert_eq!(watchers.runstart.pair(), Some(Pair { old: 35, current: 110 }));
    assert_eq!(watchers.tr1rank.pair(), Some(Pair { old: 0, current: -1 }));
}

#[test]
fn level_boundary_banks_the_old_time() {
    let mut watchers = Watchers::new();
    tick(&mut watchers, &with_time(1200), TimerState::Running);
    assert_eq!(watchers.accumulatedigt, 0);
    tick(&mut watchers, &with_time(1800), TimerState::Running);
    assert_eq!(watchers.accumulatedigt, 0);
    tick(&mut watchers, &with_time(0), TimerState::Running);
    assert_eq!(watchers.accumulatedigt, 1800);
    tick(&mut watchers, &with_time(0), TimerState::Running);
    assert_eq!(watchers.accumulatedigt, 1800);
    tick(&mut watchers, &with_time(2500), TimerState::Paused);
    assert_eq!(watchers.accumulatedigt, 1800);
    tick(&mut watchers, &with_time(0), TimerState::Paused);
    assert_eq!(watchers.accumulatedigt, 4300);
}

#[test]
fn first_sample_banks_nothing() {
    let mut watchers = Watchers::new();
    tick(&mut watchers, &with_time(0), TimerState::Running);
    assert_eq!(watchers.accumulatedigt, 0);
    let mut watchers = Watchers::new();
    watchers.accumulatedigt = 700;
    tick(&mut watchers, &with_time(0), TimerState::Running);
    assert_eq!(watchers.accumulatedigt, 700);
}

#[test]
fn accumulated_time_never_decreases_within_a_run() {
    let times: [i64; 12] = [0, 10, 2000, 0, 0, 300, 310, 0, 5, 0, 0, 999];
    let mut watchers = Watchers::new();
    let mut last = 0;
    let mut banked = 0;
    for (count, time) in times.iter().enumerate() {
        tick(&mut watchers, &with_time(*time), TimerState::Running);
        assert!(watchers.accumulatedigt >= last);
        if count > 0 && *time == 0 {
            banked += times[count - 1];
        }
        assert_eq!(watchers.accumulatedigt, banked);
        last = watchers.accumulatedigt;
    }
    assert_eq!(last, 2000 + 310 + 5);
}

#[test]
fn idle_timer_clears_the_accumulated_time() {
    let mut watchers = Watchers::new();
    tick(&mut watchers, &with_time(1800), TimerState::Running);
    tick(&mut watchers, &with_time(0), TimerState::Running);
    assert_eq!(watchers.accumulatedigt, 1800);
    tick(&mut watchers, &with_time(0), TimerState::NotRunning);
    assert_eq!(watchers.accumulatedigt, 0);
    tick(&mut watchers, &with_time(0), TimerState::NotRunning);
    assert_eq!(watchers.accumulatedigt, 0);
    tick(&mut watchers, &with_time(40), TimerState::NotRunning);
    assert_eq!(watchers.accumulatedigt, 0);
}

#[test]
fn boundary_on_an_idle_tick_is_still_banked() {
    let mut watchers = Watchers::new();
    tick(&mut watchers, &with_time(500), TimerState::Running);
    tick(&mut watchers, &with_time(0), TimerState::Running);
    tick(&mut watchers, &with_time(900), TimerState::Running);
    assert_eq!(watchers.accumulatedigt, 500);
    tick(&mut watchers, &with_time(0), TimerState::NotRunning);
    assert_eq!(watchers.accumulatedigt, 900);
    tick(&mut watchers, &with_time(0), TimerState::NotRunning);
    assert_eq!(watchers.accumulatedigt, 0);
}

#[test]
fn ended_timer_is_not_idle() {
    let mut watchers = Watchers::new();
    tick(&mut watchers, &with_time(500), TimerState::Running);
    tick(&mut watchers, &with_time(0), TimerState::Ended);
    assert_eq!(watchers.accumulatedigt, 500);
    tick(&mut watchers, &with_time(0), TimerState::Ended);
    assert_eq!(watchers.accumulatedigt, 500);
}

#[test]
fn category_follows_the_stage_count_while_idle() {
    assert_eq!(EGG_SHUTTLE_MAX_STAGES, 45);
    assert_eq!(GameMode::from_total_stages(0), GameMode::AnyPercent);
    assert_eq!(GameMode::from_total_stages(1), GameMode::EggShuttle);
    assert_eq!(GameMode::from_total_stages(44), GameMode::EggShuttle);
    assert_eq!(GameMode::from_total_stages(45), GameMode::EggShuttle);
    assert_eq!(GameMode::from_total_stages(46), GameMode::AnyPercent);
    assert_eq!(GameMode::from_total_stages(255), GameMode::AnyPercent);

    let mut watchers = Watchers::new();
    tick(&mut watchers, &with_stages(45), TimerState::NotRunning);
    assert_eq!(watchers.currentgamemode, GameMode::AnyPercent);
    tick(&mut watchers, &with_stages(45), TimerState::NotRunning);
    assert_eq!(watchers.currentgamemode, GameMode::EggShuttle);
    tick(&mut watchers, &with_stages(46), TimerState::NotRunning);
    assert_eq!(watchers.currentgamemode, GameMode::AnyPercent);
    tick(&mut watchers, &with_stages(1), TimerState::NotRunning);
    assert_eq!(watchers.currentgamemode, GameMode::EggShuttle);
    tick(&mut watchers, &with_stages(0), TimerState::NotRunning);
    assert_eq!(watchers.currentgamemode, GameMode::AnyPercent);
}

#[test]
fn category_is_frozen_during_a_run() {
    let mut watchers = Watchers::new();
    tick(&mut watchers, &with_stages(7), TimerState::NotRunning);
    tick(&mut watchers, &with_stages(7), TimerState::NotRunning);
    assert_eq!(watchers.currentgamemode, GameMode::EggShuttle);
    for state in [TimerState::Running, TimerState::Paused, TimerState::Ended] {
        tick(&mut watchers, &with_stages(0), state);
        assert_eq!(watchers.currentgamemode, GameMode::EggShuttle);
        tick(&mut watchers, &with_stages(200), state);
        assert_eq!(watchers.currentgamemode, GameMode::EggShuttle);
    }
    tick(&mut watchers, &with_stages(0), TimerState::NotRunning);
    assert_eq!(watchers.currentgamemode, GameMode::AnyPercent);
    for state in [TimerState::Running, TimerState::Paused] {
        tick(&mut watchers, &with_stages(12), state);
        assert_eq!(watchers.currentgamemode, GameMode::AnyPercent);
    }
}

#[test]
fn overflowing_accumulation_is_announced() {
    let mut watchers = Watchers::new();
    tick(&mut watchers, &with_time(10), TimerState::Running);
    watchers.accumulatedigt = i64::MAX - 9;
    assert!(!watchers.can_tick(&with_time(0), TimerState::Running));
    assert!(watchers.can_tick(&with_time(0), TimerState::NotRunning));
    assert!(watchers.can_tick(&with_time(20), TimerState::Running));
    watchers.accumulatedigt = i64::MAX - 10;
    assert!(watchers.can_tick(&with_time(0), TimerState::Running));
    tick(&mut watchers, &with_time(0), TimerState::Running);
    assert_eq!(watchers.accumulatedigt, i64::MAX);

    let mut watchers = Watchers::new();
    tick(&mut watchers, &with_time(-10), TimerState::Running);
    tick(&mut watchers, &with_time(-10), TimerState::Running);
    watchers.accumulatedigt = i64::MIN + 9;
    assert!(!watchers.can_tick(&with_time(0), TimerState::Paused));
    watchers.accumulatedigt = i64::MIN + 10;
    tick(&mut watchers, &with_time(0), TimerState::Paused);
    assert_eq!(watchers.accumulatedigt, i64::MIN);
}
