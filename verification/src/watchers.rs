//! The state that the polling loop carries from tick to tick: one watcher for
//! each observed value, the run category, and the in-game time of the levels
//! already left.

use vstd::prelude::*;
use crate::levels::Levels;
use crate::snapshot::Snapshot;
use crate::watcher::{Pair, Watcher};

verus! {

/// The category of the run.
#[derive(Clone, Copy, Debug, PartialEq, Eq, Structural)]
pub enum GameMode {
    /// A run of the whole game.
    AnyPercent,
    /// A run of the Egg Shuttle, a fixed sequence of stages.
    EggShuttle,
}

/// The coarse state of the timer that the commands drive.
#[derive(Clone, Copy, Debug, PartialEq, Eq, Structural)]
pub enum TimerState {
    /// No run is under way: the timer is idle.
    NotRunning,
    /// A run is under way.
    Running,
    /// A run is under way and the timer is paused.
    Paused,
    /// The run has ended. Nothing is decided in this state.
    Ended,
}

/// The largest number of stages that an Egg Shuttle can hold.
pub const EGG_SHUTTLE_MAX_STAGES: u8 = 45;

/// The category that a count of Egg Shuttle stages stands for: the Egg
/// Shuttle where the count is positive and at most
/// [`EGG_SHUTTLE_MAX_STAGES`], the whole game otherwise.
pub open spec fn mode_of(total_stages: u8) -> GameMode {
    if 0 < total_stages <= EGG_SHUTTLE_MAX_STAGES {
        GameMode::EggShuttle
    } else {
        GameMode::AnyPercent
    }
}

/// Whether a pair of in-game times shows a level boundary: the clock of the
/// level that was left stood at some time, and now reads zero.
pub open spec fn crossed_boundary(igt: Option<Pair<i64>>) -> bool {
    igt matches Some(pair) && pair.old != 0 && pair.current == 0
}

/// The time that a pair of in-game times adds to the accumulated time: the
/// old time at a level boundary, nothing otherwise.
pub open spec fn banked(igt: Option<Pair<i64>>) -> int {
    if crossed_boundary(igt) {
        igt.unwrap().old as int
    } else {
        0
    }
}

impl GameMode {
    /// The category that a count of Egg Shuttle stages stands for.
    pub fn from_total_stages(total_stages: u8) -> (mode: GameMode)
        ensures
            mode == mode_of(total_stages),
    {
        if total_stages > 0 && total_stages <= EGG_SHUTTLE_MAX_STAGES {
            GameMode::EggShuttle
        } else {
            GameMode::AnyPercent
        }
    }
}

impl Default for GameMode {
    fn default() -> (mode: GameMode)
        ensures
            mode == GameMode::AnyPercent,
    {
        GameMode::AnyPercent
    }
}

/// The state carried across ticks.
#[derive(Clone, Copy, Debug)]
pub struct Watchers {
    /// The level the game is in.
    pub levelid: Watcher<Levels>,
    /// The in-game time of the level, in milliseconds.
    pub igt: Watcher<i64>,
    /// Whether the goal ring has been reached.
    pub goalringreached: Watcher<bool>,
    /// How many stages the Egg Shuttle holds.
    pub eggshuttle_totalstages: Watcher<u8>,
    /// The position of the current stage within the Egg Shuttle.
    pub eggshuttle_progressiveid: Watcher<u8>,
    /// The game's own code for the state of the run.
    pub runstart: Watcher<u8>,
    /// The rank of the first time trial.
    pub tr1rank: Watcher<i8>,
    /// The in-game time of the levels already left, in milliseconds.
    pub accumulatedigt: i64,
    /// The category of the run.
    pub currentgamemode: GameMode,
}

impl Watchers {
    /// The state before the first tick: nothing seen, no time accumulated,
    /// a run of the whole game.
    pub open spec fn initial() -> Watchers {
        Watchers {
            levelid: Watcher::Empty,
            igt: Watcher::Empty,
            goalringreached: Watcher::Empty,
            eggshuttle_totalstages: Watcher::Empty,
            eggshuttle_progressiveid: Watcher::Empty,
            runstart: Watcher::Empty,
            tr1rank: Watcher::Empty,
            accumulatedigt: 0,
            currentgamemode: GameMode::AnyPercent,
        }
    }

    /// The category after a tick that sampled `snapshot`. It changes only
    /// while the timer is idle and the count of stages can be compared with
    /// an earlier one; it then follows the count just sampled.
    pub open spec fn next_mode(self, snapshot: Snapshot, state: TimerState) -> GameMode {
        if state == TimerState::NotRunning && self.eggshuttle_totalstages.latest() is Some {
            mode_of(snapshot.eggshuttle_totalstages)
        } else {
            self.currentgamemode
        }
    }

    /// The accumulated time that a tick starts from: zero while the timer is
    /// idle, what was accumulated so far otherwise.
    pub open spec fn carried(self, state: TimerState) -> int {
        if state == TimerState::NotRunning {
            0
        } else {
            self.accumulatedigt as int
        }
    }

    /// The accumulated time after a tick that sampled `snapshot`: what the
    /// tick starts from, and the time of the level just left where the
    /// in-game time crossed a level boundary.
    pub open spec fn next_accumulated(self, snapshot: Snapshot, state: TimerState) -> int {
        self.carried(state) + banked(self.igt.updated(snapshot.igt)@)
    }

    /// Whether the accumulated time after a tick can be held.
    pub open spec fn tick_fits(self, snapshot: Snapshot, state: TimerState) -> bool {
        i64::MIN <= self.next_accumulated(snapshot, state) <= i64::MAX
    }

    /// The state after a tick that sampled `snapshot` while the timer was in
    /// `state`.
    pub open spec fn ticked(self, snapshot: Snapshot, state: TimerState) -> Watchers {
        Watchers {
            levelid: self.levelid.updated(snapshot.level),
            igt: self.igt.updated(snapshot.igt),
            goalringreached: self.goalringreached.updated(snapshot.goal_ring),
            eggshuttle_totalstages: self.eggshuttle_totalstages.updated(
                snapshot.eggshuttle_totalstages,
            ),
            eggshuttle_progressiveid: self.eggshuttle_progressiveid.updated(
                snapshot.eggshuttle_progressiveid,
            ),
            runstart: self.runstart.updated(snapshot.runstart),
            tr1rank: self.tr1rank.updated(snapshot.tr1rank),
            accumulatedigt: self.next_accumulated(snapshot, state) as i64,
            currentgamemode: self.next_mode(snapshot, state),
        }
    }

    /// The state before the first tick.
    pub fn new() -> (watchers: Watchers)
        ensures
            watchers == Watchers::initial(),
    {
        Watchers {
            levelid: Watcher::Empty,
            igt: Watcher::Empty,
            goalringreached: Watcher::Empty,
            eggshuttle_totalstages: Watcher::Empty,
            eggshuttle_progressiveid: Watcher::Empty,
            runstart: Watcher::Empty,
            tr1rank: Watcher::Empty,
            accumulatedigt: 0,
            currentgamemode: GameMode::AnyPercent,
        }
    }

    /// Whether [`update_loop`] can hold the accumulated time that a tick
    /// with this sample leads to.
    pub fn can_tick(&self, snapshot: &Snapshot, state: TimerState) -> (fits: bool)
        ensures
            fits == self.tick_fits(*snapshot, state),
    {
        if state == TimerState::NotRunning {
            return true;
        }
        match self.igt {
            Watcher::Empty => true,
            Watcher::Single(previous) => snapshot.igt != 0 || previous == 0
                || self.accumulatedigt.checked_add(previous).is_some(),
            Watcher::Paired(pair) => snapshot.igt != 0 || pair.current == 0
                || self.accumulatedigt.checked_add(pair.current).is_some(),
        }
    }
}

impl Default for Watchers {
    fn default() -> (watchers: Watchers)
        ensures
            watchers == Watchers::initial(),
    {
        Watchers::new()
    }
}

/// Takes one tick's sample into the state: every watcher moves on by one
/// sample; while the timer is idle the accumulated time is cleared and the
/// category follows the count of Egg Shuttle stages; and at a level boundary
/// the time of the level just left is added to the accumulated time.
pub fn update_loop(watchers: &mut Watchers, snapshot: &Snapshot, state: TimerState)
    requires
        old(watchers).tick_fits(*snapshot, state),
    ensures
        *final(watchers) == old(watchers).ticked(*snapshot, state),
        state == TimerState::NotRunning && !crossed_boundary(final(watchers).igt@)
            ==> final(watchers).accumulatedigt == 0,
        state != TimerState::NotRunning
            ==> final(watchers).accumulatedigt == old(watchers).accumulatedigt + banked(
            final(watchers).igt@,
        ),
        final(watchers).currentgamemode != old(watchers).currentgamemode ==> state
            == TimerState::NotRunning,
{
    watchers.levelid.update(snapshot.level);
    watchers.igt.update(snapshot.igt);
    watchers.goalringreached.update(snapshot.goal_ring);
    watchers.eggshuttle_progressiveid.update(snapshot.eggshuttle_progressiveid);
    watchers.eggshuttle_totalstages.update(snapshot.eggshuttle_totalstages);
    watchers.runstart.update(snapshot.runstart);
    watchers.tr1rank.update(snapshot.tr1rank);

    if state == TimerState::NotRunning {
        watchers.accumulatedigt = 0;
        if let Some(total_stages) = watchers.eggshuttle_totalstages.pair() {
            watchers.currentgamemode = GameMode::from_total_stages(total_stages.current);
        }
    }
    if let Some(igt) = watchers.igt.pair() {
        if igt.old != 0 && igt.current == 0 {
            watchers.accumulatedigt = watchers.accumulatedigt + igt.old;
        }
    }
}

/// The state after the ticks of `ticks`, first to last, each with its sample
/// and the state the timer was in.
pub open spec fn ticked_through(start: Watchers, ticks: Seq<(Snapshot, TimerState)>) -> Watchers
    decreases ticks.len(),
{
    if ticks.len() == 0 {
        start
    } else {
        ticked_through(start, ticks.drop_last()).ticked(ticks.last().0, ticks.last().1)
    }
}

/// Whether the accumulated time can be held after every tick of `ticks`.
pub open spec fn ticks_fit(start: Watchers, ticks: Seq<(Snapshot, TimerState)>) -> bool {
    forall|i: int|
        0 <= i < ticks.len() ==> (#[trigger] ticked_through(start, ticks.take(i))).tick_fits(
            ticks[i].0,
            ticks[i].1,
        )
}

/// After the first tick no watcher offers a pair, whatever was sampled.
pub proof fn lemma_first_tick_offers_no_pair(snapshot: Snapshot, state: TimerState)
    ensures
        ({
            let after = Watchers::initial().ticked(snapshot, state);
            &&& after.levelid@ is None
            &&& after.igt@ is None
            &&& after.goalringreached@ is None
            &&& after.eggshuttle_totalstages@ is None
            &&& after.eggshuttle_progressiveid@ is None
            &&& after.runstart@ is None
            &&& after.tr1rank@ is None
        }),
{
}

/// After two or more ticks every watcher offers a pair, whatever the state
/// before them: `old` is what the tick before the last sampled, `current`
/// what the last tick sampled.
pub proof fn lemma_pairs_follow_ticks(start: Watchers, ticks: Seq<(Snapshot, TimerState)>)
    requires
        ticks.len() >= 2,
    ensures
        ({
            let after = ticked_through(start, ticks);
            let old = ticks[ticks.len() - 2].0;
            let current = ticks[ticks.len() - 1].0;
            &&& after.levelid@ == Some(Pair { old: old.level, current: current.level })
            &&& after.igt@ == Some(Pair { old: old.igt, current: current.igt })
            &&& after.goalringreached@ == Some(
                Pair { old: old.goal_ring, current: current.goal_ring },
            )
            &&& after.eggshuttle_totalstages@ == Some(
                Pair { old: old.eggshuttle_totalstages, current: current.eggshuttle_totalstages },
            )
            &&& after.eggshuttle_progressiveid@ == Some(
                Pair {
                    old: old.eggshuttle_progressiveid,
                    current: current.eggshuttle_progressiveid,
                },
            )
            &&& after.runstart@ == Some(Pair { old: old.runstart, current: current.runstart })
            &&& after.tr1rank@ == Some(Pair { old: old.tr1rank, current: current.tr1rank })
        }),
{
    let earlier = ticks.drop_last();
    let before = ticked_through(start, earlier.drop_last());
    assert(ticked_through(start, earlier) == before.ticked(earlier.last().0, earlier.last().1));
    assert(earlier.last() == ticks[ticks.len() - 2]);
}

/// A tick during a run never takes from the accumulated time, as long as the
/// game's clock stood at no negative time.
pub proof fn lemma_accumulated_grows(watchers: Watchers, snapshot: Snapshot, state: TimerState)
    requires
        state != TimerState::NotRunning,
        watchers.tick_fits(snapshot, state),
        watchers.igt.latest() matches Some(time) ==> time >= 0,
    ensures
        watchers.ticked(snapshot, state).accumulatedigt >= watchers.accumulatedigt,
{
}

/// Within a run, that is over any ticks during which the timer is not idle,
/// the accumulated time never decreases, as long as the game's clock reads
/// no negative time.
pub proof fn lemma_accumulated_monotonic(start: Watchers, ticks: Seq<(Snapshot, TimerState)>)
    requires
        ticks_fit(start, ticks),
        forall|i: int| 0 <= i < ticks.len() ==> (#[trigger] ticks[i]).1 != TimerState::NotRunning,
        forall|i: int| 0 <= i < ticks.len() ==> (#[trigger] ticks[i]).0.igt >= 0,
        start.igt.latest() matches Some(time) ==> time >= 0,
    ensures
        ticked_through(start, ticks).accumulatedigt >= start.accumulatedigt,
        ticks.len() > 0 ==> ticked_through(start, ticks).igt.latest() == Some(ticks.last().0.igt),
    decreases ticks.len(),
{
    if ticks.len() > 0 {
        let earlier = ticks.drop_last();
        assert forall|i: int| 0 <= i < earlier.len() implies (#[trigger] ticked_through(
            start,
            earlier.take(i),
        )).tick_fits(earlier[i].0, earlier[i].1) by {
            assert(earlier.take(i) == ticks.take(i));
            assert(earlier[i] == ticks[i]);
        }
        assert forall|i: int| 0 <= i < earlier.len() implies (#[trigger] earlier[i]).1
            != TimerState::NotRunning && earlier[i].0.igt >= 0 by {
            assert(earlier[i] == ticks[i]);
        }
        lemma_accumulated_monotonic(start, earlier);
        let before = ticked_through(start, earlier);
        assert(ticks.take(ticks.len() - 1) == earlier);
        assert(before.tick_fits(ticks.last().0, ticks.last().1));
        if earlier.len() > 0 {
            assert(earlier.last() == ticks[ticks.len() - 2]);
        }
        lemma_accumulated_grows(before, ticks.last().0, ticks.last().1);
    }
}

/// A tick while the timer is idle leaves the accumulated time at exactly
/// zero, unless the in-game time crosses a level boundary on that very tick:
/// then it leaves the time of the level just left.
pub proof fn lemma_idle_clears(watchers: Watchers, snapshot: Snapshot)
    ensures
        watchers.tick_fits(snapshot, TimerState::NotRunning),
        watchers.ticked(snapshot, TimerState::NotRunning).accumulatedigt == banked(
            watchers.igt.updated(snapshot.igt)@,
        ),
        !crossed_boundary(watchers.igt.updated(snapshot.igt)@) ==> watchers.ticked(
            snapshot,
            TimerState::NotRunning,
        ).accumulatedigt == 0,
{
}

/// The category of a run changes only while the timer is idle.
pub proof fn lemma_mode_frozen(watchers: Watchers, snapshot: Snapshot, state: TimerState)
    requires
        state != TimerState::NotRunning,
    ensures
        watchers.ticked(snapshot, state).currentgamemode == watchers.currentgamemode,
{
}

} // verus!
