//! Batch retrieval of audio tracks from remote playlists.
//!
//! The crate turns a list of playlist requests into resolved track lists,
//! drives a per-track download attempt through an external media fetcher,
//! classifies each attempt's outcome, and accumulates one result record per
//! dispatched track, ready to be persisted to a relational sink.

pub mod outcome;
pub mod text;
pub mod model;
pub mod planner;
pub mod executor;
pub mod capability;
pub mod decode;
pub mod batch;
pub mod store;
