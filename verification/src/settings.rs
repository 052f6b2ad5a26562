//! What the user has switched on: the start and reset conditions, and the
//! levels whose exit is worth a split.

use vstd::prelude::*;
use crate::levels::{lemma_index_distinct, Levels, LEVEL_COUNT};

verus! {

/// The user's configuration.
#[derive(Clone, Copy, Debug)]
pub struct Settings {
    /// Start the timer when a run of the whole game begins.
    pub start_anypercent: bool,
    /// Start the timer on entering the first Sonic Simulator stage.
    pub start_sonic_simulator: bool,
    /// Start the timer when an Egg Shuttle run begins.
    pub start_egg_shuttle: bool,
    /// Reset the timer when a run of the whole game is abandoned.
    pub reset_anypercent: bool,
    /// Reset the timer when an Egg Shuttle run is abandoned.
    pub reset_egg_shuttle: bool,
    /// For each level, at its position in the catalog, whether leaving it
    /// is worth a split.
    pub splits: [bool; LEVEL_COUNT],
}

impl Settings {
    /// Whether leaving `level` is worth a split. Leaving no level never is.
    pub open spec fn split_flag(self, level: Levels) -> bool {
        level != Levels::NoLevel && self.splits@[level.index() as int]
    }

    /// The settings with every start and reset condition set to `enabled`,
    /// and every level's split too.
    pub fn uniform(enabled: bool) -> (settings: Settings)
        ensures
            settings.start_anypercent == enabled,
            settings.start_sonic_simulator == enabled,
            settings.start_egg_shuttle == enabled,
            settings.reset_anypercent == enabled,
            settings.reset_egg_shuttle == enabled,
            forall|level: Levels|
                level != Levels::NoLevel ==> #[trigger] settings.split_flag(level) == enabled,
            forall|position: int|
                0 <= position < LEVEL_COUNT ==> settings.splits@[position] == enabled,
    {
        let settings = Settings {
            start_anypercent: enabled,
            start_sonic_simulator: enabled,
            start_egg_shuttle: enabled,
            reset_anypercent: enabled,
            reset_egg_shuttle: enabled,
            splits: [enabled; LEVEL_COUNT],
        };
        assert forall|level: Levels| level != Levels::NoLevel implies (
        #[trigger] settings.split_flag(level)) == enabled by {
            assert(0 <= level.index() < LEVEL_COUNT);
        }
        settings
    }

    /// Whether leaving `level` is worth a split.
    pub fn split_enabled(&self, level: Levels) -> (enabled: bool)
        ensures
            enabled == self.split_flag(level),
    {
        let position = level.ordinal();
        position < LEVEL_COUNT && self.splits[position]
    }

    /// Switches the split after `level` on or off. The other levels and the
    /// start and reset conditions stay as they are; for the sentinel nothing
    /// changes.
    pub fn set_split(&mut self, level: Levels, enabled: bool)
        ensures
            level != Levels::NoLevel ==> final(self).split_flag(level) == enabled,
            forall|other: Levels|
                other != level ==> #[trigger] final(self).split_flag(other) == old(self).split_flag(
                    other,
                ),
            final(self).splits@ == (if level == Levels::NoLevel {
                old(self).splits@
            } else {
                old(self).splits@.update(level.index() as int, enabled)
            }),
            final(self).start_anypercent == old(self).start_anypercent,
            final(self).start_sonic_simulator == old(self).start_sonic_simulator,
            final(self).start_egg_shuttle == old(self).start_egg_shuttle,
            final(self).reset_anypercent == old(self).reset_anypercent,
            final(self).reset_egg_shuttle == old(self).reset_egg_shuttle,
    {
        let position = level.ordinal();
        if position < LEVEL_COUNT {
            self.splits[position] = enabled;
        }
        assert forall|other: Levels| other != level implies #[trigger] final(self).split_flag(other)
            == old(self).split_flag(other) by {
            if other.index() == level.index() {
                lemma_index_distinct(other, level);
            }
        }
    }
}

impl Default for Settings {
    /// Everything is switched on.
    fn default() -> (settings: Settings)
        ensures
            settings.start_anypercent,
            settings.start_sonic_simulator,
            settings.start_egg_shuttle,
            settings.reset_anypercent,
            settings.reset_egg_shuttle,
            forall|level: Levels|
                level != Levels::NoLevel ==> #[trigger] settings.split_flag(level),
            forall|position: int| 0 <= position < LEVEL_COUNT ==> settings.splits@[position],
    {
        Settings::uniform(true)
    }
}

} // verus!
