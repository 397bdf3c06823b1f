//! What the user interface says and does, apart from how it is drawn.

pub mod dialogs;
pub mod menu;
pub mod player;
