//! Core logic of a playback-queue browser for a remote playback daemon.
//!
//! The library mirrors the daemon's queue and playback status, ranks queue
//! entries against a free-text query, and drives a rotating status line and
//! a selection that follows the playing track. All I/O (the daemon
//! connection, rendering) lives outside; the library works on plain values.

pub mod display;
pub mod player;
pub mod queue;
pub mod search;
pub mod status;
