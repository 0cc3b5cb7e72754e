//! Lifecycle of optional game components: a version index of component
//! releases, a crash-safe package sync state machine, and an overlay of
//! artifacts placed into (and removed from) a game directory.

pub mod text;
pub mod json;
pub mod index;
pub mod overlay;
pub mod sync;
pub mod layout;
pub mod config;
pub mod steam;
