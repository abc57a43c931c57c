//! Animation, asset readiness and phase logic of a small sprite game.
//!
//! The crate holds the rules that drive sprite actors: countdown timers,
//! the per-entity animation state machine, the table of clips per actor
//! kind, the tracker of images still loading, the phases of a session and
//! the reactions of enemies and of the player to ticks, input and hits.
//! Durations are whole nanoseconds; identifiers are plain integers.

pub mod animation;
pub mod enemy;
pub mod handles;
pub mod loading;
pub mod machine;
pub mod manifest;
pub mod player;
pub mod state;
pub mod stats;
pub mod table;
pub mod timer;
