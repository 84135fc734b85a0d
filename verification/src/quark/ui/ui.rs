//! The state of the windows of the editor as a whole.

use vstd::prelude::*;
use crate::quark::ui::chunk_editor::{ChunkEditor, ChunkEditorState};
use crate::quark::ui::entity_view::{spec_attribute_place, EntityView, EntityViewState};
use crate::quark::ui::ui_callback::UiCallbackPreset;
use crate::world::entity::EntityAttribute;
use crate::quark::ui::dialogue_editor::DialogueEditor;
use crate::types::{Direction1D, Direction3D};
use crate::ui::choice_menu::ChoiceMenu;
use crate::ui::control_scheme::{first_of, one_of, spec_first_of, ControlSchemeType, KeyCode, UiKey};
use crate::ui::cursor::Cursor;
use crate::ui::popup_message::PopupMessage;

verus! {

/// The window that is shown.
#[derive(Debug, PartialEq, Eq, Structural, Clone, Copy)]
pub enum UiState {
    Chunk,
    Dialogue,
    ChoiceMenu,
}

/// What the option that is chosen from the menu is for.
#[derive(Debug, PartialEq, Eq, Structural, Clone, Copy)]
pub enum MenuPurpose {
    /// It is the new value of the attribute under the cursor.
    SetChoice,
    /// It names the attribute to add.
    AddAttribute,
}

#[derive(Debug, PartialEq, Eq)]
pub struct Ui {
    pub state: UiState,
    pub chunk_editor: ChunkEditor,
    pub dialogue_editor: DialogueEditor,
    pub popup_messages: Vec<PopupMessage>,
    pub scheme: ControlSchemeType,
    pub choice_menu: ChoiceMenu,
    pub menu_purpose: MenuPurpose,
}

impl Default for UiState {
    fn default() -> (state: Self)
        ensures
            state == UiState::Chunk,
    {
        UiState::Chunk
    }
}

impl Ui {
    /// The windows as the editor starts: the chunk editor, no popup.
    pub fn new() -> (ui: Self)
        ensures
            ui.state == UiState::Chunk,
            ui.popup_messages@ == Seq::<PopupMessage>::empty(),
            ui.chunk_editor.entity_view.entity is None,
            ui.dialogue_editor.tree is None,
            ui.choice_menu.options@ == Seq::<String>::empty(),
    {
        Ui {
            state: UiState::Chunk,
            chunk_editor: ChunkEditor::new(),
            dialogue_editor: DialogueEditor::new(),
            popup_messages: Vec::new(),
            scheme: ControlSchemeType::Default,
            choice_menu: ChoiceMenu::new(Vec::new()),
            menu_purpose: MenuPurpose::SetChoice,
        }
    }

    /// Puts a popup behind those that wait.
    pub fn set_popup(&mut self, popup_message: PopupMessage)
        ensures
            final(self).popup_messages@ == old(self).popup_messages@.push(popup_message),
            *final(self) == (Ui { popup_messages: final(self).popup_messages, ..*old(self) }),
    {
        self.popup_messages.push(popup_message);
    }

    /// Closes the popup that has waited longest, if one waits.
    pub fn close_popup(&mut self)
        ensures
            final(self).popup_messages@ == if old(self).popup_messages@.len() > 0 {
                old(self).popup_messages@.drop_first()
            } else {
                old(self).popup_messages@
            },
            *final(self) == (Ui { popup_messages: final(self).popup_messages, ..*old(self) }),
    {
        if self.popup_messages.len() > 0 {
            let _ = self.popup_messages.remove(0);
            assert(self.popup_messages@ =~= old(self).popup_messages@.drop_first());
        }
    }

    /// Moves the cursor of the chunk editor one step.
    pub fn move_cursor(&mut self, direction: &Direction3D)
        ensures
            *final(self) == (Ui {
                chunk_editor: ChunkEditor {
                    cursor: Cursor {
                        coords: if old(self).chunk_editor.cursor.coords.can_step(*direction) {
                            old(self).chunk_editor.cursor.coords.spec_step(*direction)
                        } else {
                            old(self).chunk_editor.cursor.coords
                        },
                        ..old(self).chunk_editor.cursor
                    },
                    ..old(self).chunk_editor
                },
                ..*old(self)
            }),
    {
        self.chunk_editor.cursor.move_in_direction(direction);
    }

    /// The meanings that matter to the menu.
    pub open spec fn spec_menu_keys() -> Seq<UiKey> {
        seq![UiKey::MoveDown, UiKey::MoveUp, UiKey::Confirm, UiKey::ExitSubmenu]
    }

    /// The meanings that matter to the dialogue editor.
    pub open spec fn spec_dialogue_keys() -> Seq<UiKey> {
        seq![UiKey::MoveUp, UiKey::MoveDown, UiKey::ExitSubmenu]
    }

    /// The meanings that matter to the entity view while no text is
    /// written.
    pub open spec fn spec_view_keys() -> Seq<UiKey> {
        seq![
            UiKey::MoveNorth,
            UiKey::MoveSouth,
            UiKey::Confirm,
            UiKey::AddItem,
            UiKey::RemoveItem,
            UiKey::ExitSubmenu,
        ]
    }

    /// What a key asks of the windows of the editor, where `written` is
    /// the text that is being written. A popup that waits takes the key:
    /// news are closed by yes and by no. Else the window that is shown
    /// takes it, and the first meaning of the key that matters to the
    /// window decides. While a text is written, only the key that leaves
    /// the writing asks for anything; every other key is typed.
    pub open spec fn spec_handle_key_events(
        self,
        code: KeyCode,
        written: Seq<char>,
        callback: Option<UiCallbackPreset>,
    ) -> bool {
        let view = self.chunk_editor.entity_view;
        if self.popup_messages@.len() > 0 {
            callback == (match self.popup_messages@[0].spec_consumes_input(code, self.scheme) {
                Some(_) => Some(UiCallbackPreset::CloseUiPopup),
                None => None,
            })
        } else {
            match self.scheme.spec_keys_from_code(code) {
                None => callback is None,
                Some(keys) => match self.state {
                    UiState::ChoiceMenu => match spec_first_of(keys, Self::spec_menu_keys()) {
                        Some(UiKey::MoveDown) => callback == Some(
                            UiCallbackPreset::MoveChoiceMenuCursor(Direction1D::Down),
                        ),
                        Some(UiKey::MoveUp) => callback == Some(
                            UiCallbackPreset::MoveChoiceMenuCursor(Direction1D::Up),
                        ),
                        Some(UiKey::Confirm) => if self.choice_menu.index
                            < self.choice_menu.options@.len() {
                            callback matches Some(UiCallbackPreset::ChoiceMenuSelectAndExit(option))
                                && option@ == self.choice_menu.options@[self.choice_menu.index as int]@
                        } else {
                            callback is None
                        },
                        Some(UiKey::ExitSubmenu) => callback == Some(
                            UiCallbackPreset::ExitChoiceMenu,
                        ),
                        _ => callback is None,
                    },
                    UiState::Dialogue => callback == (match spec_first_of(
                        keys,
                        Self::spec_dialogue_keys(),
                    ) {
                        Some(UiKey::MoveUp) => Some(
                            UiCallbackPreset::MoveDialogueEditorCursor(Direction1D::Up),
                        ),
                        Some(UiKey::MoveDown) => Some(
                            UiCallbackPreset::MoveDialogueEditorCursor(Direction1D::Down),
                        ),
                        Some(UiKey::ExitSubmenu) => Some(UiCallbackPreset::ExitDialogueEditor),
                        _ => None,
                    }),
                    UiState::Chunk => if self.chunk_editor.state == ChunkEditorState::Main {
                        callback == self.chunk_editor.spec_handle_key_events(code, self.scheme)
                    } else if view.state == EntityViewState::FormattedStringInput {
                        if keys.contains(UiKey::ExitSubmenu) {
                            callback matches Some(UiCallbackPreset::ExitStringEditor(attr, text))
                                && attr == view.text_attr && text@ == written
                        } else {
                            callback is None
                        }
                    } else {
                        match spec_first_of(keys, Self::spec_view_keys()) {
                            Some(UiKey::MoveNorth) => callback == Some(
                                UiCallbackPreset::MoveEntityViewCursor(Direction1D::Up),
                            ),
                            Some(UiKey::MoveSouth) => callback == Some(
                                UiCallbackPreset::MoveEntityViewCursor(Direction1D::Down),
                            ),
                            Some(UiKey::AddItem) => callback == Some(
                                UiCallbackPreset::AddEntityAttribute,
                            ),
                            Some(UiKey::ExitSubmenu) => callback == Some(
                                UiCallbackPreset::ExitEntityView,
                            ),
                            Some(UiKey::Confirm) => match view.entity {
                                None => callback is None,
                                Some(entity) => match spec_attribute_place(
                                    entity,
                                    view.cursor_pos as int,
                                    0,
                                    0,
                                ) {
                                    None => callback is None,
                                    Some(place) => callback matches Some(
                                        UiCallbackPreset::EditEntityAttribute(attr, value),
                                    ) && attr == EntityAttribute::spec_attribute_order()[place]
                                        && value@ == entity.spec_attribute_value(attr),
                                },
                            },
                            Some(UiKey::RemoveItem) => match view.entity {
                                None => callback is None,
                                Some(entity) => match spec_attribute_place(
                                    entity,
                                    view.cursor_pos as int,
                                    0,
                                    0,
                                ) {
                                    None => callback is None,
                                    Some(place) => callback == Some(
                                        UiCallbackPreset::RemoveEntityAttribute(
                                            EntityAttribute::spec_attribute_order()[place],
                                        ),
                                    ),
                                },
                            },
                            _ => callback is None,
                        }
                    },
                },
            }
        }
    }

    /// What a key asks of the windows of the editor.
    pub fn handle_key_events(&self, code: KeyCode, written: &str) -> (callback: Option<
        UiCallbackPreset,
    >)
        ensures
            self.spec_handle_key_events(code, written@, callback),
    {
        if self.popup_messages.len() > 0 {
            return match self.popup_messages[0].consumes_input(code, &self.scheme) {
                Some(_) => Some(UiCallbackPreset::CloseUiPopup),
                None => None,
            };
        }
        let keys = match self.scheme.keys_from_code(code) {
            Some(keys) => keys,
            None => {
                return None;
            },
        };
        match self.state {
            UiState::ChoiceMenu => {
                let wanted = vec![UiKey::MoveDown, UiKey::MoveUp, UiKey::Confirm, UiKey::ExitSubmenu];
                assert(wanted@ =~= Self::spec_menu_keys());
                match first_of(&keys, &wanted) {
                    Some(UiKey::MoveDown) => Some(
                        UiCallbackPreset::MoveChoiceMenuCursor(Direction1D::Down),
                    ),
                    Some(UiKey::MoveUp) => Some(
                        UiCallbackPreset::MoveChoiceMenuCursor(Direction1D::Up),
                    ),
                    Some(UiKey::Confirm) => match self.choice_menu.exit() {
                        Ok(option) => Some(UiCallbackPreset::ChoiceMenuSelectAndExit(option.clone())),
                        Err(_) => None,
                    },
                    Some(UiKey::ExitSubmenu) => Some(UiCallbackPreset::ExitChoiceMenu),
                    _ => None,
                }
            },
            UiState::Dialogue => {
                let wanted = vec![UiKey::MoveUp, UiKey::MoveDown, UiKey::ExitSubmenu];
                assert(wanted@ =~= Self::spec_dialogue_keys());
                match first_of(&keys, &wanted) {
                    Some(UiKey::MoveUp) => Some(
                        UiCallbackPreset::MoveDialogueEditorCursor(Direction1D::Up),
                    ),
                    Some(UiKey::MoveDown) => Some(
                        UiCallbackPreset::MoveDialogueEditorCursor(Direction1D::Down),
                    ),
                    Some(UiKey::ExitSubmenu) => Some(UiCallbackPreset::ExitDialogueEditor),
                    _ => None,
                }
            },
            UiState::Chunk => {
                let view = &self.chunk_editor.entity_view;
                if self.chunk_editor.state == ChunkEditorState::Main {
                    self.chunk_editor.handle_key_events(code, self.scheme)
                } else if view.state == EntityViewState::FormattedStringInput {
                    let leave = vec![UiKey::ExitSubmenu];
                    proof {
                        assert(leave@ =~= seq![UiKey::ExitSubmenu]);
                        crate::utils::lemma_first_index(keys@, one_of(leave@));
                        assert(leave@[0] == UiKey::ExitSubmenu);
                        if keys@.contains(UiKey::ExitSubmenu) {
                            let j = choose|j: int| 0 <= j < keys@.len() && keys@[j] == UiKey::ExitSubmenu;
                            assert(one_of(leave@)(keys@[j]));
                        }
                    }
                    match first_of(&keys, &leave) {
                        Some(_) => Some(
                            UiCallbackPreset::ExitStringEditor(view.text_attr, written.to_owned()),
                        ),
                        None => None,
                    }
                } else {
                    let wanted = vec![
                        UiKey::MoveNorth,
                        UiKey::MoveSouth,
                        UiKey::Confirm,
                        UiKey::AddItem,
                        UiKey::RemoveItem,
                        UiKey::ExitSubmenu,
                    ];
                    assert(wanted@ =~= Self::spec_view_keys());
                    match first_of(&keys, &wanted) {
                        Some(UiKey::MoveNorth) => Some(
                            UiCallbackPreset::MoveEntityViewCursor(Direction1D::Up),
                        ),
                        Some(UiKey::MoveSouth) => Some(
                            UiCallbackPreset::MoveEntityViewCursor(Direction1D::Down),
                        ),
                        Some(UiKey::AddItem) => Some(UiCallbackPreset::AddEntityAttribute),
                        Some(UiKey::ExitSubmenu) => Some(UiCallbackPreset::ExitEntityView),
                        Some(UiKey::Confirm) => match &view.entity {
                            None => None,
                            Some(entity) => match EntityView::index_to_attribute_lookup(
                                view.cursor_pos,
                                entity,
                            ) {
                                Ok(found) => Some(
                                    UiCallbackPreset::EditEntityAttribute(found.0, found.1),
                                ),
                                Err(_) => None,
                            },
                        },
                        Some(UiKey::RemoveItem) => match view.get_current_attribute() {
                            Ok(attr) => Some(UiCallbackPreset::RemoveEntityAttribute(attr)),
                            Err(_) => None,
                        },
                        _ => None,
                    }
                }
            },
        }
    }

    /// How often in a second the windows are drawn.
    pub fn get_current_refresh_rate(&self) -> (rate: u16)
        ensures
            rate == 60,
    {
        match self.state {
            UiState::Chunk => self.chunk_editor.refresh_rate(),
            UiState::Dialogue => self.dialogue_editor.refresh_rate(),
            UiState::ChoiceMenu => 60,
        }
    }
}

} // verus!
