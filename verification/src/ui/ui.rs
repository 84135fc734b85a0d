//! The state of the windows of the game as a whole.

use vstd::prelude::*;
use crate::types::{Direction1D, Direction3D};
use crate::ui::control_scheme::{ControlSchemeType, KeyCode, UiKey};
use crate::ui::cursor::Cursor;
use crate::ui::dialogue_window::DialogueWindow;
use crate::ui::main_screen::MainScreen;
use crate::ui::overworld_window::OverworldWindow;
use crate::ui::popup_message::PopupMessage;
use crate::ui::splash_screen::{SplashScreen, State};
use crate::ui::ui_callback::UiCallbackPreset;

verus! {

/// The screen that is shown.
#[derive(Debug, PartialEq, Eq, Structural, Clone, Copy)]
pub enum UiState {
    Splash,
    Main,
}

#[derive(Debug, PartialEq, Eq, Structural, Clone, Copy)]
pub enum UiWindow {
    Main,
    Dialogue,
    Log,
}

/// The windows of the game: which screen is shown, the two screens, the
/// popups that wait to be closed, oldest first, and the control scheme.
#[derive(Debug, PartialEq, Eq)]
pub struct Ui {
    pub state: UiState,
    pub splash_screen: SplashScreen,
    pub main_screen: MainScreen,
    pub popup_messages: Vec<PopupMessage>,
    pub scheme: ControlSchemeType,
}

impl Default for UiState {
    fn default() -> (state: Self)
        ensures
            state == UiState::Splash,
    {
        UiState::Splash
    }
}

impl PopupMessage {
    /// What a key asks of a popup: news are closed by yes and by no; the
    /// question for a name is answered in writing, not by a key.
    pub open spec fn spec_consumes_input(self, code: KeyCode, scheme: ControlSchemeType) -> Option<
        UiCallbackPreset,
    > {
        match self {
            PopupMessage::SaveNameDialog => None,
            _ => if scheme.spec_code_yields_key(code, UiKey::NoToDialog)
                || scheme.spec_code_yields_key(code, UiKey::YesToDialog) {
                Some(UiCallbackPreset::CloseUiPopup)
            } else {
                None
            },
        }
    }

    /// What a key asks of a popup.
    pub fn consumes_input(&self, code: KeyCode, scheme: &ControlSchemeType) -> (callback: Option<
        UiCallbackPreset,
    >)
        ensures
            callback == self.spec_consumes_input(code, *scheme),
    {
        match self {
            PopupMessage::SaveNameDialog => None,
            _ => {
                if scheme.code_yields_key(code, UiKey::NoToDialog) || scheme.code_yields_key(
                    code,
                    UiKey::YesToDialog,
                ) {
                    Some(UiCallbackPreset::CloseUiPopup)
                } else {
                    None
                }
            },
        }
    }
}

impl Ui {
    /// The windows as the game starts: the splash screen before its sweep,
    /// no popup.
    pub fn new() -> (ui: Self)
        ensures
            ui.state == UiState::Splash,
            ui.splash_screen.spec_is_new(),
            ui.popup_messages@ == Seq::<PopupMessage>::empty(),
            ui.scheme == ControlSchemeType::Default,
            ui.main_screen == MainScreen::spec_new(),
    {
        Ui {
            state: UiState::Splash,
            splash_screen: SplashScreen::new(),
            main_screen: MainScreen::new(),
            popup_messages: Vec::new(),
            scheme: ControlSchemeType::Default,
        }
    }

    /// Puts a popup behind those that wait.
    pub fn set_popup(&mut self, popup_message: PopupMessage)
        ensures
            final(self).popup_messages@ == old(self).popup_messages@.push(popup_message),
            *final(self) == (Ui { popup_messages: final(self).popup_messages, ..*old(self) }),
    {
        self.popup_messages.push(popup_message);
    }

    /// Closes the popup that has waited longest, if one waits.
    pub fn close_popup(&mut self)
        ensures
            final(self).popup_messages@ == if old(self).popup_messages@.len() > 0 {
                old(self).popup_messages@.drop_first()
            } else {
                old(self).popup_messages@
            },
            *final(self) == (Ui { popup_messages: final(self).popup_messages, ..*old(self) }),
    {
        if self.popup_messages.len() > 0 {
            let _ = self.popup_messages.remove(0);
            assert(self.popup_messages@ =~= old(self).popup_messages@.drop_first());
        }
    }

    /// The windows with the cursor of the overworld one step further in
    /// `direction`, as far as the coordinates reach.
    pub open spec fn spec_cursor_moved(self, direction: Direction3D) -> Ui {
        let cursor = self.main_screen.overworld_window.cursor;
        Ui {
            main_screen: MainScreen {
                overworld_window: OverworldWindow {
                    cursor: Cursor {
                        coords: if cursor.coords.can_step(direction) {
                            cursor.coords.spec_step(direction)
                        } else {
                            cursor.coords
                        },
                        ..cursor
                    },
                },
                ..self.main_screen
            },
            ..self
        }
    }

    /// Moves the cursor of the overworld one step.
    pub fn move_cursor(&mut self, direction: &Direction3D)
        ensures
            *final(self) == old(self).spec_cursor_moved(*direction),
    {
        self.main_screen.overworld_window.cursor.move_in_direction(direction);
    }

    /// The windows with the highlight of the dialogue one choice further.
    pub open spec fn spec_highlight_moved(self, direction: Direction1D, max_choice: usize) -> Ui {
        Ui {
            main_screen: MainScreen {
                dialogue_window: DialogueWindow {
                    active_choice: self.main_screen.dialogue_window.spec_moved(
                        direction,
                        max_choice,
                    ),
                },
                ..self.main_screen
            },
            ..self
        }
    }

    /// Moves the highlight of the dialogue one choice.
    pub fn move_dialogue_highlight(&mut self, direction: &Direction1D, max_choice: usize)
        ensures
            *final(self) == old(self).spec_highlight_moved(*direction, max_choice),
    {
        let _ = self.main_screen.dialogue_window.move_highlight(*direction, max_choice);
    }

    /// What a key asks of the windows: of the popup that has waited
    /// longest, where one waits, and else of the screen that is shown. The
    /// splash screen asks for nothing.
    pub open spec fn spec_handle_key_events(self, code: KeyCode) -> Option<UiCallbackPreset> {
        if self.popup_messages@.len() > 0 {
            self.popup_messages@[0].spec_consumes_input(code, self.scheme)
        } else {
            match self.state {
                UiState::Splash => None,
                UiState::Main => self.main_screen.spec_handle_key_events(code, self.scheme),
            }
        }
    }

    /// The windows after a key: where no popup waits and the splash screen
    /// is shown, any key starts its next sweep; nothing else changes by a
    /// key alone.
    pub open spec fn spec_after_key(self) -> Ui {
        if self.popup_messages@.len() == 0 && self.state == UiState::Splash {
            Ui {
                splash_screen: match self.splash_screen.state {
                    State::Start => SplashScreen { state: State::Sweep, ..self.splash_screen },
                    State::Wait => SplashScreen {
                        state: State::Unsweep,
                        tick: 0,
                        ..self.splash_screen
                    },
                    _ => self.splash_screen,
                },
                ..self
            }
        } else {
            self
        }
    }

    /// What a key asks of the windows.
    pub fn handle_key_events(&mut self, code: KeyCode) -> (callback: Option<UiCallbackPreset>)
        ensures
            callback == old(self).spec_handle_key_events(code),
            *final(self) == old(self).spec_after_key(),
    {
        if self.popup_messages.len() > 0 {
            return self.popup_messages[0].consumes_input(code, &self.scheme);
        }
        match self.state {
            UiState::Splash => self.splash_screen.handle_key_events(code),
            UiState::Main => self.main_screen.handle_key_events(code, self.scheme),
        }
    }

    /// How often in a second the screen that is shown is drawn.
    pub fn get_current_refresh_rate(&self) -> (rate: u16)
        ensures
            rate == match self.state {
                UiState::Splash => self.splash_screen.refresh_rate,
                UiState::Main => 60,
            },
    {
        match self.state {
            UiState::Splash => self.splash_screen.get_refresh_rate(),
            UiState::Main => self.main_screen.refresh_rate(),
        }
    }

    /// Lets one tick of the screen that is shown pass. The splash screen
    /// goes on with its sweep, and once the letter is swept off, the main
    /// screen is shown.
    pub fn update(&mut self)
        ensures
            final(self).main_screen == old(self).main_screen,
            final(self).popup_messages == old(self).popup_messages,
            final(self).scheme == old(self).scheme,
            old(self).state == UiState::Main ==> *final(self) == *old(self),
            old(self).state == UiState::Splash ==> {
                &&& final(self).splash_screen.state == old(self).splash_screen.spec_state_then()
                &&& final(self).splash_screen.tick == (if old(self).splash_screen.spec_sweeps()
                    && old(self).splash_screen.tick < u32::MAX {
                    (old(self).splash_screen.tick + 1) as u32
                } else {
                    old(self).splash_screen.tick
                })
                &&& crate::ui::splash_screen::spec_grid(final(self).splash_screen.contents@)
                    == old(self).splash_screen.spec_contents_then()
                &&& final(self).splash_screen.outline == old(self).splash_screen.outline
                &&& final(self).splash_screen.title == old(self).splash_screen.title
                &&& final(self).splash_screen.title_color == old(self).splash_screen.title_color
                &&& final(self).state == (if final(self).splash_screen.state == State::Done {
                    UiState::Main
                } else {
                    UiState::Splash
                })
            },
    {
        match self.state {
            UiState::Splash => {
                self.splash_screen.update();
                if self.splash_screen.state == State::Done {
                    self.state = UiState::Main;
                }
            },
            UiState::Main => {},
        }
    }
}

} // verus!
