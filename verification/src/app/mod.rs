//! The application: what the user asks for, what is shown, and what is kept.

pub mod interruptions;
pub mod laws;
pub mod positions;
pub mod promises;
pub mod saves;
pub mod sessions;
pub mod state;
pub mod ui;
pub mod update;
pub mod views;
