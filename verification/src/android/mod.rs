//! The player in an Android activity.

pub mod bars;
pub mod bridge;
pub mod focus;
pub mod gpu;
pub mod host;
pub mod ime;
pub mod input;
pub mod screen;
pub mod utf16;
