//! Core logic of a speedrun autosplitter for a PlayStation survival-horror
//! game: watchers over sampled memory values, reconstruction of a monotonic
//! in-game time from a wrapping frame counter, and the boolean rule set that
//! decides when the timer starts, splits, pauses or resets.
//!
//! All process attachment, memory reading and timer driving is left to an
//! unverified front end; this crate works on plain sampled values.

pub mod control;
pub mod doors;
pub mod offsets;
pub mod rules;
pub mod settings;
pub mod watcher;
pub mod watchers;
