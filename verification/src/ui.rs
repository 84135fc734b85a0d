//! The state of the windows that show the world, without the drawing.

pub mod choice_menu;
pub mod control_scheme;
pub mod cursor;
pub mod dialogue_window;
pub mod log_window;
pub mod main_screen;
pub mod overworld_window;
pub mod popup_message;
pub mod splash_screen;
pub mod traits;
pub mod ui;
pub mod ui_callback;
pub mod utils;
