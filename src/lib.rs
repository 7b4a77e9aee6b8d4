//! A terminal music player's core: the play queue, its metadata and the
//! audio sink model, kept in lockstep by the queue orchestrator.

pub mod cache;
pub mod config;
pub mod controls;
pub mod engine;
pub mod laws;
pub mod metadata;
pub mod player;
pub mod text;
pub mod tracks;
pub mod ui;
