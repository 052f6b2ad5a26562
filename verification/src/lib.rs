//! Decision core of an auto splitter for Sonic Colors: Ultimate.
//!
//! The crate turns raw observations of the game's memory into commands for a
//! speedrun timer. It performs no I/O itself: the host reads memory and drives
//! the timer, and hands this crate plain values.

pub mod addresses;
pub mod decisions;
pub mod levels;
pub mod sampler;
pub mod settings;
pub mod snapshot;
pub mod tick;
pub mod watcher;
pub mod watchers;
