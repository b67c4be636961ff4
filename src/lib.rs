//! Watches live-streaming channels and decides which of them to record.
//!
//! The library holds the verified logic: the expiring cache, the recording
//! state tracker, the parsing of the platform's JSON responses, the building
//! of request URLs and capture commands, and the per-cycle dispatch decision.
//! Network, file system, clock and process handling stay with the caller.

pub mod cache;
pub mod json;
pub mod orchestrator;
pub mod recorder;
pub mod tracker;
pub mod twitch;
