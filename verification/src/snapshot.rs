//! One tick's raw observations of the game.

use vstd::prelude::*;
use crate::levels::Levels;

verus! {

/// What one tick read from the game. A field that could not be read holds its
/// resting value: no level, zero, `false`.
#[derive(Clone, Copy, Debug, PartialEq, Eq, Structural)]
pub struct Snapshot {
    /// The level the game is in.
    pub level: Levels,
    /// The in-game time of the level, in milliseconds.
    pub igt: i64,
    /// Whether the goal ring of the level has been reached.
    pub goal_ring: bool,
    /// How many stages the Egg Shuttle holds; zero outside the Egg Shuttle.
    pub eggshuttle_totalstages: u8,
    /// The position of the current stage within the Egg Shuttle.
    pub eggshuttle_progressiveid: u8,
    /// The game's own code for the state of the run.
    pub runstart: u8,
    /// The rank of the first time trial; -1 while none has been given.
    pub tr1rank: i8,
}

/// The bit of the level's flag byte that is set once the goal ring is reached.
pub const GOAL_RING_BIT: u8 = 0x20;

/// The snapshot of a tick in which nothing could be read.
pub open spec fn resting() -> Snapshot {
    Snapshot {
        level: Levels::NoLevel,
        igt: 0,
        goal_ring: false,
        eggshuttle_totalstages: 0,
        eggshuttle_progressiveid: 0,
        runstart: 0,
        tr1rank: 0,
    }
}

/// Whether `hundredths` of a second can be held as milliseconds.
pub open spec fn millis_fit(hundredths: i64) -> bool {
    i64::MIN <= hundredths * 10 <= i64::MAX
}

impl Snapshot {
    /// The snapshot of a tick in which nothing could be read.
    pub fn new() -> (snapshot: Snapshot)
        ensures
            snapshot == resting(),
    {
        Snapshot {
            level: Levels::NoLevel,
            igt: 0,
            goal_ring: false,
            eggshuttle_totalstages: 0,
            eggshuttle_progressiveid: 0,
            runstart: 0,
            tr1rank: 0,
        }
    }
}

impl Default for Snapshot {
    fn default() -> (snapshot: Snapshot)
        ensures
            snapshot == resting(),
    {
        Snapshot::new()
    }
}

/// The in-game time in milliseconds, from the game's count of whole
/// hundredths of a second.
pub fn igt_millis(hundredths: i64) -> (millis: i64)
    requires
        millis_fit(hundredths),
    ensures
        millis == hundredths * 10,
{
    hundredths * 10
}

/// The in-game time in milliseconds, or `None` where the count of hundredths
/// is too large to be held as milliseconds.
pub fn checked_igt_millis(hundredths: i64) -> (millis: Option<i64>)
    ensures
        millis is Some <==> millis_fit(hundredths),
        millis matches Some(value) ==> value == hundredths * 10,
{
    if hundredths > i64::MAX / 10 || hundredths < i64::MIN / 10 {
        None
    } else {
        Some(hundredths * 10)
    }
}

/// Whether the level's flag byte says that the goal ring has been reached.
pub fn goal_ring_reached(flags: u8) -> (reached: bool)
    ensures
        reached == (flags & GOAL_RING_BIT != 0),
{
    flags & GOAL_RING_BIT != 0
}

} // verus!
