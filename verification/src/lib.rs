//! Verified core of a per-session playback service: the playback state
//! machine (queue, playlist, shuffle), the session registry, the
//! read-through metadata cache policy, and the orchestration decisions
//! that drive an external playback transport.

pub mod cache;
pub mod laws;
pub mod orchestrator;
pub mod player;
pub mod registry;
pub mod shuffle;
pub mod track;
