//! The window that shows the log.

use vstd::prelude::*;
use crate::ui::control_scheme::{ControlSchemeType, KeyCode};
use crate::ui::ui_callback::UiCallbackPreset;

verus! {

#[derive(Debug, PartialEq, Eq, Structural, Clone, Copy)]
pub struct LogWindow;

impl LogWindow {
    pub fn new() -> (window: Self) {
        LogWindow {  }
    }

    /// No key means anything to the log.
    pub fn handle_key_events(&self, code: KeyCode, scheme: ControlSchemeType) -> (callback: Option<
        UiCallbackPreset,
    >)
        ensures
            callback is None,
    {
        None
    }

    pub fn refresh_rate(&self) -> (rate: u16)
        ensures
            rate == 60,
    {
        60
    }
}

} // verus!
