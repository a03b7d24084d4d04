//! Core logic of a looping video player: a playback-speed multiplier, the
//! integer-millisecond pacer that spaces frame emission, the playback worker's
//! control state machine, the orchestrator's relay step, and the consumer-side
//! state update. Demuxing, decoding and presentation are performed by the
//! surrounding application, which drives these verified decision functions.

pub mod orchestrator;
pub mod pacer;
pub mod player;
pub mod speed;
pub mod video;
