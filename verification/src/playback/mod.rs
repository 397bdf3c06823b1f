//! Playback: what is decoded, when it is shown and how the transport behaves.

pub mod backend;
pub mod clock;
pub mod debug;
pub mod debug_graph;
pub mod debug_sections;
pub mod decode_mode;
pub mod dummy;
pub mod engine;
pub mod frames;
pub mod hls;
pub mod laws;
pub mod opening;
pub mod present;
pub mod promises;
pub mod pump;
pub mod seek;
pub mod sink;
pub mod stream;
pub mod wake;
