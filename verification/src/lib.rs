//! The logic of Sanctuary Player, a media player for recorded streams.

pub mod address;
pub mod android;
pub mod app;
pub mod audio_output;
pub mod audio_timeline;
pub mod desktop;
pub mod double;
pub mod input;
pub mod json;
pub mod logging;
pub mod model;
pub mod persistence;
pub mod playback;
pub mod ring;
pub mod services;
pub mod session;
pub mod settings;
pub mod spoilers;
pub mod surface;
pub mod text;
pub mod time;
pub mod time_base;
pub mod time_format;
pub mod twitch;
pub mod ui;
pub mod video;
