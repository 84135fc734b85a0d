//! The main screen: the overworld, the dialogue and the log side by side.

use vstd::prelude::*;
use crate::ui::control_scheme::{ControlSchemeType, KeyCode};
use crate::ui::dialogue_window::DialogueWindow;
use crate::ui::log_window::LogWindow;
use crate::ui::overworld_window::OverworldWindow;
use crate::ui::ui_callback::UiCallbackPreset;

verus! {

/// The window that takes the keys.
#[derive(Debug, PartialEq, Eq, Structural, Clone, Copy)]
pub enum ScreenState {
    Overworld,
    Dialogue,
    Log,
}

#[derive(Debug, PartialEq, Eq, Structural, Clone, Copy)]
pub struct MainScreen {
    pub state: ScreenState,
    pub overworld_window: OverworldWindow,
    pub dialogue_window: DialogueWindow,
    pub log_window: LogWindow,
}

pub const OVERWORLD_WIDTH_MIN: u16 = 67;

pub const OVERWORLD_HEIGHT_MIN: u16 = 35;

pub const LOG_WIDTH_MIN: u16 = 80;

pub const LOG_HEIGHT: u16 = 16;

pub const DIALOGUE_WIDTH: u16 = 36;

impl Default for ScreenState {
    fn default() -> (state: Self)
        ensures
            state == ScreenState::Overworld,
    {
        ScreenState::Overworld
    }
}

impl MainScreen {
    /// The main screen as it is first shown: the overworld takes the keys,
    /// its cursor rests hidden at the origin, and the first choice of the
    /// dialogue is highlighted.
    pub open spec fn spec_new() -> MainScreen {
        MainScreen {
            state: ScreenState::Overworld,
            overworld_window: OverworldWindow {
                cursor: crate::ui::cursor::Cursor {
                    coords: crate::types::Coords3D(0, 0, 0),
                    style: crate::ui::cursor::CursorStyle::SteadyBlock,
                    visible: false,
                },
            },
            dialogue_window: DialogueWindow { active_choice: 0 },
            log_window: LogWindow,
        }
    }

    pub fn new() -> (screen: Self)
        ensures
            screen == Self::spec_new(),
    {
        MainScreen {
            state: ScreenState::Overworld,
            overworld_window: OverworldWindow::new(),
            dialogue_window: DialogueWindow::new(),
            log_window: LogWindow::new(),
        }
    }

    /// What a key asks of the screen: what it asks of the window that takes
    /// the keys.
    pub open spec fn spec_handle_key_events(
        self,
        code: KeyCode,
        scheme: ControlSchemeType,
    ) -> Option<UiCallbackPreset> {
        match self.state {
            ScreenState::Overworld => self.overworld_window.spec_handle_key_events(code, scheme),
            ScreenState::Dialogue => self.dialogue_window.spec_handle_key_events(code, scheme),
            ScreenState::Log => None,
        }
    }

    /// What a key asks of the screen.
    pub fn handle_key_events(&self, code: KeyCode, scheme: ControlSchemeType) -> (callback: Option<
        UiCallbackPreset,
    >)
        ensures
            callback == self.spec_handle_key_events(code, scheme),
    {
        match self.state {
            ScreenState::Overworld => self.overworld_window.handle_key_events(code, scheme),
            ScreenState::Dialogue => self.dialogue_window.handle_key_events(code, scheme),
            ScreenState::Log => self.log_window.handle_key_events(code, scheme),
        }
    }

    /// How often in a second the screen is drawn.
    pub fn refresh_rate(&self) -> (rate: u16)
        ensures
            rate == 60,
    {
        match self.state {
            ScreenState::Overworld => self.overworld_window.get_refresh_rate(),
            ScreenState::Dialogue => self.dialogue_window.refresh_rate(),
            ScreenState::Log => self.log_window.refresh_rate(),
        }
    }
}

} // verus!
