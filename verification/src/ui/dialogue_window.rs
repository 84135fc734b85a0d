//! The window that shows the dialogue.

use vstd::prelude::*;
use crate::error::Error;
use crate::types::Direction1D;
use crate::ui::control_scheme::{ControlSchemeType, KeyCode, UiKey};
use crate::ui::ui_callback::UiCallbackPreset;

verus! {

#[derive(Debug, PartialEq, Eq, Structural, Clone, Copy)]
pub struct DialogueWindow {
    pub active_choice: usize,
}

/// The first of the meanings of a key that matters to the dialogue window.
pub open spec fn spec_dialogue_key(keys: Seq<UiKey>, n: int) -> Option<UiKey>
    decreases n,
{
    if n <= 0 {
        None
    } else {
        match spec_dialogue_key(keys, n - 1) {
            Some(key) => Some(key),
            None => if keys[n - 1] == UiKey::MoveNorth || keys[n - 1] == UiKey::MoveSouth
                || keys[n - 1] == UiKey::Confirm {
                Some(keys[n - 1])
            } else {
                None
            },
        }
    }
}

impl DialogueWindow {
    pub fn new() -> (window: Self)
        ensures
            window.active_choice == 0,
    {
        DialogueWindow { active_choice: 0 }
    }

    /// The choice that is highlighted after a step in `direction`, where
    /// `max_choice` is the last place the highlight can take: it stops at
    /// the first place and at the last.
    pub open spec fn spec_moved(self, direction: Direction1D, max_choice: usize) -> usize {
        match direction {
            Direction1D::Up => if self.active_choice > 0 && self.active_choice - 1 <= max_choice {
                (self.active_choice - 1) as usize
            } else {
                self.active_choice
            },
            Direction1D::Down => if self.active_choice + 1 <= max_choice {
                (self.active_choice + 1) as usize
            } else {
                self.active_choice
            },
        }
    }

    /// Moves the highlight one choice up or down.
    pub fn move_highlight(&mut self, direction: Direction1D, max_choice: usize) -> (result: Result<
        (),
        Error,
    >)
        ensures
            result is Ok,
            final(self).active_choice == old(self).spec_moved(direction, max_choice),
    {
        match direction {
            Direction1D::Up => {
                if self.active_choice > 0 && self.active_choice - 1 <= max_choice {
                    self.active_choice -= 1;
                }
            },
            Direction1D::Down => {
                if self.active_choice < max_choice {
                    self.active_choice += 1;
                }
            },
        }
        Ok(())
    }

    /// What a key asks of the dialogue: to move the highlight, or to take
    /// the highlighted choice. The first meaning of the key that matters
    /// here decides.
    pub open spec fn spec_handle_key_events(
        self,
        code: KeyCode,
        scheme: ControlSchemeType,
    ) -> Option<UiCallbackPreset> {
        match scheme.spec_keys_from_code(code) {
            None => None,
            Some(keys) => match spec_dialogue_key(keys, keys.len() as int) {
                Some(UiKey::MoveNorth) => Some(
                    UiCallbackPreset::MoveDialogueHighlight(Direction1D::Up),
                ),
                Some(UiKey::MoveSouth) => Some(
                    UiCallbackPreset::MoveDialogueHighlight(Direction1D::Down),
                ),
                Some(UiKey::Confirm) => Some(
                    UiCallbackPreset::SelectDialogueEntry(self.active_choice),
                ),
                _ => None,
            },
        }
    }

    /// What a key asks of the dialogue.
    pub fn handle_key_events(&self, code: KeyCode, scheme: ControlSchemeType) -> (callback: Option<
        UiCallbackPreset,
    >)
        ensures
            callback == self.spec_handle_key_events(code, scheme),
    {
        let keys = match scheme.keys_from_code(code) {
            Some(keys) => keys,
            None => {
                return None;
            },
        };
        let mut k: usize = 0;
        while k < keys.len()
            invariant
                k <= keys.len(),
                scheme.spec_keys_from_code(code) == Some(keys@),
                spec_dialogue_key(keys@, k as int) is None,
            decreases keys.len() - k,
        {
            proof {
                lemma_dialogue_key_found(keys@, k + 1, keys@.len() as int);
            }
            match keys[k] {
                UiKey::MoveNorth => {
                    return Some(UiCallbackPreset::MoveDialogueHighlight(Direction1D::Up));
                },
                UiKey::MoveSouth => {
                    return Some(UiCallbackPreset::MoveDialogueHighlight(Direction1D::Down));
                },
                UiKey::Confirm => {
                    return Some(UiCallbackPreset::SelectDialogueEntry(self.active_choice));
                },
                _ => {},
            }
            k += 1;
        }
        None
    }

    pub fn refresh_rate(&self) -> (rate: u16)
        ensures
            rate == 60,
    {
        60
    }
}

/// A meaning that was found stays the one that is found.
pub proof fn lemma_dialogue_key_found(keys: Seq<UiKey>, n: int, m: int)
    requires
        0 <= n <= m,
    ensures
        spec_dialogue_key(keys, n) is Some ==> spec_dialogue_key(keys, m) == spec_dialogue_key(
            keys,
            n,
        ),
    decreases m - n,
{
    if n < m {
        lemma_dialogue_key_found(keys, n, m - 1);
    }
}

} // verus!
