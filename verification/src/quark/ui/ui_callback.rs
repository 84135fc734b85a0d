//! What the windows of the editor ask for.

use vstd::prelude::*;
use crate::error::Error;
use crate::quark::ui::chunk_editor::{ChunkEditor, ChunkEditorState};
use crate::quark::ui::dialogue_editor::{DialogueEditor, DialogueEditorState};
use crate::quark::ui::entity_view::{
    spec_attribute_place, spec_with_choice, EntityView, EntityViewState,
};
use crate::ui::cursor::Cursor;
use crate::quark::ui::ui::{MenuPurpose, Ui, UiState};
use crate::types::{Coords3D, Direction1D, Direction3D, FormattedString};
use crate::ui::choice_menu::ChoiceMenu;
use crate::world::chunk::spec_occupant;
use crate::world::dialogue::DialogueTree;
use crate::world::entity::{
    Entity, EntityAttribute, EntityAttributeChoice, EntityAttributeText,
};
use crate::world::log::LogStyle;
use crate::world::world::World;

verus! {

/// What a window of the editor asks for when a key was pressed.
#[derive(Debug, PartialEq, Eq)]
pub enum UiCallbackPreset {
    MoveChunkEditorCursor(Direction3D),
    MoveEntityViewCursor(Direction1D),
    MoveChoiceMenuCursor(Direction1D),
    EditEntity(Coords3D),
    EditEntityAttribute(EntityAttribute, FormattedString<LogStyle>),
    AddEntityAttribute,
    RemoveEntityAttribute(EntityAttribute),
    ExitStringEditor(EntityAttributeText, String),
    ChoiceMenuSelectAndExit(String),
    ExitChoiceMenu,
    ExitEntityView,
    MoveDialogueEditorCursor(Direction1D),
    ExitDialogueEditor,
    CloseUiPopup,
    SaveToDisk,
}

/// What is left to do once a callback was answered, because it reaches
/// beyond the editor's own state.
#[derive(Debug, PartialEq, Eq)]
pub enum EditorRequest {
    Nothing,
    /// The project is to be saved.
    SaveProject,
    /// The tree is to be saved under its speaker's name.
    SaveDialogue(DialogueTree),
}

impl EntityAttribute {
    /// The attribute with the name `name`.
    pub open spec fn spec_from_name(name: Seq<char>) -> Option<EntityAttribute> {
        if name == "Name"@ {
            Some(EntityAttribute::Text(EntityAttributeText::Name))
        } else if name == "Description"@ {
            Some(EntityAttribute::Text(EntityAttributeText::Description))
        } else if name == "Type"@ {
            Some(EntityAttribute::Choice(EntityAttributeChoice::Type))
        } else if name == "Is rooted"@ {
            Some(EntityAttribute::Choice(EntityAttributeChoice::IsRooted))
        } else if name == "Has agency"@ {
            Some(EntityAttribute::Choice(EntityAttributeChoice::HasAgency))
        } else if name == "Allegiance"@ {
            Some(EntityAttribute::Choice(EntityAttributeChoice::Allegiance))
        } else if name == "Opacity"@ {
            Some(EntityAttribute::Choice(EntityAttributeChoice::Opacity))
        } else if name == "Size"@ {
            Some(EntityAttribute::Choice(EntityAttributeChoice::Size))
        } else {
            None
        }
    }

    /// The attribute with the name `name`.
    pub fn from_name(name: &str) -> (result: Result<EntityAttribute, Error>)
        ensures
            match Self::spec_from_name(name@) {
                Some(attr) => result == Ok::<EntityAttribute, Error>(attr),
                None => result == Err::<EntityAttribute, Error>(Error::UnknownChoice),
            },
    {
        if crate::ui::traits::same_text(name, "Name") {
            Ok(EntityAttribute::Text(EntityAttributeText::Name))
        } else if crate::ui::traits::same_text(name, "Description") {
            Ok(EntityAttribute::Text(EntityAttributeText::Description))
        } else if crate::ui::traits::same_text(name, "Type") {
            Ok(EntityAttribute::Choice(EntityAttributeChoice::Type))
        } else if crate::ui::traits::same_text(name, "Is rooted") {
            Ok(EntityAttribute::Choice(EntityAttributeChoice::IsRooted))
        } else if crate::ui::traits::same_text(name, "Has agency") {
            Ok(EntityAttribute::Choice(EntityAttributeChoice::HasAgency))
        } else if crate::ui::traits::same_text(name, "Allegiance") {
            Ok(EntityAttribute::Choice(EntityAttributeChoice::Allegiance))
        } else if crate::ui::traits::same_text(name, "Opacity") {
            Ok(EntityAttribute::Choice(EntityAttributeChoice::Opacity))
        } else if crate::ui::traits::same_text(name, "Size") {
            Ok(EntityAttribute::Choice(EntityAttributeChoice::Size))
        } else {
            Err(Error::UnknownChoice)
        }
    }
}

impl core::str::FromStr for EntityAttribute {
    type Err = Error;

    /// The attribute with the name `s`.
    fn from_str(s: &str) -> (result: Result<Self, Error>)
        ensures
            match EntityAttribute::spec_from_name(s@) {
                Some(attr) => result == Ok::<EntityAttribute, Error>(attr),
                None => result == Err::<EntityAttribute, Error>(Error::UnknownChoice),
            },
    {
        EntityAttribute::from_name(s)
    }
}

/// The names of the attributes among the first `n`, in their order, that
/// `entity` lacks.
pub open spec fn spec_missing_attributes(entity: Entity, n: int) -> Seq<Seq<char>>
    decreases n,
{
    if n <= 0 {
        Seq::empty()
    } else {
        let before = spec_missing_attributes(entity, n - 1);
        let attr = EntityAttribute::spec_attribute_order()[n - 1];
        if entity.spec_has_attribute(attr) {
            before
        } else {
            before.push(attr.spec_name())
        }
    }
}

/// The texts of strings.
pub open spec fn spec_texts(strings: Seq<String>) -> Seq<Seq<char>> {
    strings.map_values(|s: String| s@)
}

fn missing_attributes(entity: &Entity) -> (names: Vec<String>)
    ensures
        spec_texts(names@) == spec_missing_attributes(*entity, 8),
{
    let order = EntityAttribute::attribute_order();
    let mut names: Vec<String> = Vec::new();
    let mut k: usize = 0;
    assert(spec_texts(names@) =~= Seq::<Seq<char>>::empty());
    while k < 8
        invariant
            k <= 8,
            order@ == EntityAttribute::spec_attribute_order(),
            spec_texts(names@) == spec_missing_attributes(*entity, k as int),
        decreases 8 - k,
    {
        if !entity.has_attribute(&order[k]) {
            let ghost before = names@;
            names.push(order[k].name().to_owned());
            assert(spec_texts(names@) =~= spec_texts(before).push(order@[k as int].spec_name()));
        }
        k += 1;
    }
    names
}

fn owned_names(names: Vec<&'static str>) -> (owned: Vec<String>)
    ensures
        owned@.len() == names@.len(),
        forall|j: int| 0 <= j < owned@.len() ==> (#[trigger] owned@[j])@ == names@[j]@,
{
    let mut owned: Vec<String> = Vec::new();
    let mut k: usize = 0;
    while k < names.len()
        invariant
            k <= names.len(),
            owned@.len() == k,
            forall|j: int| 0 <= j < k ==> (#[trigger] owned@[j])@ == names@[j]@,
        decreases names.len() - k,
    {
        owned.push(names[k].to_owned());
        k += 1;
    }
    owned
}

impl UiCallbackPreset {
    /// What answering the callback makes of the windows of the editor, and
    /// what is left to do. `chunk` holds the entities of the active chunk.
    pub open spec fn spec_called(
        self,
        chunk: Seq<(u32, Entity)>,
        ui: Ui,
        after: Ui,
        result: Result<EditorRequest, Error>,
    ) -> bool {
        let done = Ok::<EditorRequest, Error>(EditorRequest::Nothing);
        let editor = ui.chunk_editor;
        let view = editor.entity_view;
        match self {
            UiCallbackPreset::MoveChunkEditorCursor(direction) => {
                &&& result == done
                &&& after == (Ui {
                    chunk_editor: ChunkEditor {
                        cursor: Cursor {
                            coords: if editor.cursor.coords.can_step(direction) {
                                editor.cursor.coords.spec_step(direction)
                            } else {
                                editor.cursor.coords
                            },
                            ..editor.cursor
                        },
                        ..editor
                    },
                    ..ui
                })
            },
            UiCallbackPreset::MoveEntityViewCursor(direction) => match view.entity {
                None => result == Err::<EditorRequest, Error>(Error::EmptySession) && after == ui,
                Some(entity) => result == done && after == (Ui {
                    chunk_editor: ChunkEditor {
                        entity_view: EntityView {
                            cursor_pos: view.spec_moved(direction, entity.spec_attribute_count()),
                            ..view
                        },
                        ..editor
                    },
                    ..ui
                }),
            },
            UiCallbackPreset::MoveChoiceMenuCursor(direction) => {
                &&& result == done
                &&& after == (Ui {
                    choice_menu: ChoiceMenu {
                        index: ui.choice_menu.spec_moved(direction),
                        ..ui.choice_menu
                    },
                    ..ui
                })
            },
            UiCallbackPreset::EditEntity(coords) => {
                &&& result == done
                &&& after == (Ui {
                    chunk_editor: ChunkEditor {
                        state: ChunkEditorState::EntityView,
                        entity_view: EntityView {
                            cursor_pos: 0,
                            entity: after.chunk_editor.entity_view.entity,
                            ..view
                        },
                        ..editor
                    },
                    ..ui
                })
                &&& after.chunk_editor.entity_view.entity is Some
                &&& match spec_occupant(chunk, coords) {
                    Some(i) => after.chunk_editor.entity_view.entity->0.spec_same(chunk[i].1),
                    None => after.chunk_editor.entity_view.entity->0.spec_is_blank()
                        && after.chunk_editor.entity_view.entity->0.coords == coords,
                }
            },
            UiCallbackPreset::EditEntityAttribute(attr, _) => result == done && (match attr {
                EntityAttribute::Text(text) => after == (Ui {
                    chunk_editor: ChunkEditor {
                        entity_view: EntityView {
                            text_attr: text,
                            state: EntityViewState::FormattedStringInput,
                            ..view
                        },
                        ..editor
                    },
                    ..ui
                }),
                EntityAttribute::Choice(choice) => {
                    &&& after == (Ui {
                        choice_menu: after.choice_menu,
                        menu_purpose: MenuPurpose::SetChoice,
                        state: UiState::ChoiceMenu,
                        ..ui
                    })
                    &&& after.choice_menu.index == 0
                    &&& spec_texts(after.choice_menu.options@) == choice.spec_choices()
                },
            }),
            UiCallbackPreset::AddEntityAttribute => match view.entity {
                None => result == Err::<EditorRequest, Error>(Error::EmptySession) && after == ui,
                Some(entity) => {
                    &&& result == done
                    &&& after == (Ui {
                        choice_menu: after.choice_menu,
                        menu_purpose: MenuPurpose::AddAttribute,
                        state: UiState::ChoiceMenu,
                        ..ui
                    })
                    &&& after.choice_menu.index == 0
                    &&& spec_texts(after.choice_menu.options@) == spec_missing_attributes(entity, 8)
                },
            },
            UiCallbackPreset::RemoveEntityAttribute(attr) => match view.entity {
                None => result == Err::<EditorRequest, Error>(Error::EmptySession) && after == ui,
                Some(before) => if attr.is_required() {
                    result == Err::<EditorRequest, Error>(Error::AttributeRequired(attr)) && after
                        == ui
                } else if !before.spec_has_attribute(attr) {
                    result == Err::<EditorRequest, Error>(Error::AttributeAbsent(attr)) && after
                        == ui
                } else {
                    let left = before.spec_without_attribute(attr);
                    &&& result == done
                    &&& after == (Ui {
                        chunk_editor: ChunkEditor {
                            entity_view: EntityView {
                                entity: Some(left),
                                cursor_pos: if left.spec_attribute_count() - 1 < view.cursor_pos {
                                    (left.spec_attribute_count() - 1) as usize
                                } else {
                                    view.cursor_pos
                                },
                                ..view
                            },
                            ..editor
                        },
                        ..ui
                    })
                },
            },
            UiCallbackPreset::ExitStringEditor(attr, text) => match view.entity {
                None => result == Err::<EditorRequest, Error>(Error::EmptySession) && after == (Ui {
                    chunk_editor: ChunkEditor {
                        entity_view: EntityView { state: EntityViewState::Main, ..view },
                        ..editor
                    },
                    ..ui
                }),
                Some(before) => {
                    &&& result == done
                    &&& after == (Ui {
                        chunk_editor: ChunkEditor {
                            entity_view: EntityView {
                                state: EntityViewState::Main,
                                entity: after.chunk_editor.entity_view.entity,
                                ..view
                            },
                            ..editor
                        },
                        ..ui
                    })
                    &&& after.chunk_editor.entity_view.entity is Some
                    &&& match attr {
                        EntityAttributeText::Name => after.chunk_editor.entity_view.entity->0
                            == (Entity {
                            name: after.chunk_editor.entity_view.entity->0.name,
                            ..before
                        }) && after.chunk_editor.entity_view.entity->0.name.text_is(text@),
                        EntityAttributeText::Description => after.chunk_editor.entity_view.entity->0
                            == (Entity {
                            description: after.chunk_editor.entity_view.entity->0.description,
                            ..before
                        }) && after.chunk_editor.entity_view.entity->0.description.text_is(text@),
                    }
                },
            },
            UiCallbackPreset::ChoiceMenuSelectAndExit(_) => {
                let changed = Ui {
                    state: UiState::Chunk,
                    chunk_editor: ChunkEditor {
                        entity_view: EntityView {
                            entity: after.chunk_editor.entity_view.entity,
                            ..view
                        },
                        ..editor
                    },
                    ..ui
                };
                if ui.choice_menu.index >= ui.choice_menu.options@.len() {
                    result == Err::<EditorRequest, Error>(Error::EmptySession) && after == ui
                } else {
                    let chosen = ui.choice_menu.options@[ui.choice_menu.index as int]@;
                    match view.entity {
                        None => result == Err::<EditorRequest, Error>(Error::EmptySession)
                            && after == ui,
                        Some(before) => match ui.menu_purpose {
                            MenuPurpose::AddAttribute => match EntityAttribute::spec_from_name(
                                chosen,
                            ) {
                                None => result == Err::<EditorRequest, Error>(Error::UnknownChoice)
                                    && after == ui,
                                Some(attr) => if attr.is_required() {
                                    result == Err::<EditorRequest, Error>(
                                        Error::AttributeRequired(attr),
                                    ) && after == ui
                                } else if before.spec_has_attribute(attr) {
                                    result == Err::<EditorRequest, Error>(
                                        Error::AttributePresent(attr),
                                    ) && after == ui
                                } else {
                                    &&& result == done
                                    &&& after == changed
                                    &&& after.chunk_editor.entity_view.entity is Some
                                    &&& before.spec_attribute_added(
                                        attr,
                                        after.chunk_editor.entity_view.entity->0,
                                    )
                                },
                            },
                            MenuPurpose::SetChoice => match spec_attribute_place(
                                before,
                                view.cursor_pos as int,
                                0,
                                0,
                            ) {
                                None => result == Err::<EditorRequest, Error>(
                                    Error::AttributeOutOfRange(view.cursor_pos),
                                ) && after == ui,
                                Some(place) => match EntityAttribute::spec_attribute_order()[place] {
                                    EntityAttribute::Text(_) => result == done && after == (Ui {
                                        state: UiState::Chunk,
                                        ..ui
                                    }),
                                    EntityAttribute::Choice(choice) => match spec_with_choice(
                                        before,
                                        choice,
                                        chosen,
                                    ) {
                                        Some(set) => result == done && after == changed
                                            && after.chunk_editor.entity_view.entity == Some(set),
                                        None => result == Err::<EditorRequest, Error>(
                                            Error::UnknownChoice,
                                        ) && after == ui,
                                    },
                                },
                            },
                        },
                    }
                }
            },
            UiCallbackPreset::ExitChoiceMenu => {
                &&& result == done
                &&& after == (Ui {
                    state: UiState::Chunk,
                    chunk_editor: ChunkEditor {
                        entity_view: EntityView { state: EntityViewState::Main, ..view },
                        ..editor
                    },
                    ..ui
                })
            },
            UiCallbackPreset::ExitEntityView => match view.entity {
                None => result == Err::<EditorRequest, Error>(Error::EmptySession) && after == ui,
                Some(_) => result == done && after == (Ui {
                    chunk_editor: ChunkEditor {
                        state: ChunkEditorState::Main,
                        entity_view: EntityView { entity: None, ..view },
                        ..editor
                    },
                    ..ui
                }),
            },
            UiCallbackPreset::MoveDialogueEditorCursor(direction) => match ui.dialogue_editor.tree {
                None => result == Err::<EditorRequest, Error>(Error::EmptySession) && after == ui,
                Some(tree) => match tree.spec_active_node() {
                    None => result == Err::<EditorRequest, Error>(Error::ActiveNodeNotFound)
                        && after == ui,
                    Some(i) => result == done && after == (Ui {
                        dialogue_editor: DialogueEditor {
                            cursor_pos: ui.dialogue_editor.spec_moved(
                                direction,
                                tree.nodes@[i].choices@.len() as int,
                            ),
                            ..ui.dialogue_editor
                        },
                        ..ui
                    }),
                },
            },
            UiCallbackPreset::ExitDialogueEditor => {
                &&& after == (Ui {
                    dialogue_editor: DialogueEditor {
                        state: DialogueEditorState::Main,
                        tree: None,
                        ..ui.dialogue_editor
                    },
                    ..ui
                })
                &&& match ui.dialogue_editor.tree {
                    None => result == Err::<EditorRequest, Error>(Error::EmptySession),
                    Some(tree) => result == Ok::<EditorRequest, Error>(
                        EditorRequest::SaveDialogue(tree),
                    ),
                }
            },
            UiCallbackPreset::CloseUiPopup => {
                &&& result == done
                &&& after == (Ui { popup_messages: after.popup_messages, ..ui })
                &&& after.popup_messages@ == (if ui.popup_messages@.len() > 0 {
                    ui.popup_messages@.drop_first()
                } else {
                    ui.popup_messages@
                })
            },
            UiCallbackPreset::SaveToDisk => result == Ok::<EditorRequest, Error>(
                EditorRequest::SaveProject,
            ) && after == ui,
        }
    }

    /// Answers the callback: does to the windows of the editor, and to the
    /// world, what was asked for, and says what is left to do. Leaving the
    /// entity view puts the entity that was edited into the active chunk;
    /// no other callback touches the world.
    #[verifier::rlimit(50)]
    pub fn call(&self, world: &mut World, ui: &mut Ui, next_valid_entity_id: &mut u32) -> (result:
        Result<EditorRequest, Error>)
        requires
            old(world).active_chunk.wf(),
        ensures
            final(world).active_chunk.wf(),
            self.spec_called(old(world).active_chunk@, *old(ui), *final(ui), result),
            match (*self, old(ui).chunk_editor.entity_view.entity) {
                (UiCallbackPreset::ExitEntityView, Some(entity)) => {
                    &&& *final(world) == (World {
                        active_chunk: final(world).active_chunk,
                        ..*old(world)
                    })
                    &&& match spec_occupant(old(world).active_chunk@, entity.coords) {
                        Some(i) => *final(next_valid_entity_id) == *old(next_valid_entity_id)
                            && final(world).active_chunk@ == old(world).active_chunk@.update(
                            i,
                            (old(world).active_chunk@[i].0, entity),
                        ),
                        None => final(world).active_chunk@ == crate::world::chunk::spec_insert(
                            old(world).active_chunk@,
                            *old(next_valid_entity_id),
                            entity,
                        ) && *final(next_valid_entity_id) == (if *old(next_valid_entity_id)
                            < u32::MAX {
                            (*old(next_valid_entity_id) + 1) as u32
                        } else {
                            *old(next_valid_entity_id)
                        }),
                    }
                },
                _ => *final(world) == *old(world) && *final(next_valid_entity_id)
                    == *old(next_valid_entity_id),
            },
    {
        match self {
            UiCallbackPreset::MoveChunkEditorCursor(direction) => {
                ui.move_cursor(direction);
                Ok(EditorRequest::Nothing)
            },
            UiCallbackPreset::MoveEntityViewCursor(direction) => {
                match ui.chunk_editor.entity_view.move_cursor(direction) {
                    Ok(()) => Ok(EditorRequest::Nothing),
                    Err(e) => Err(e),
                }
            },
            UiCallbackPreset::MoveChoiceMenuCursor(direction) => {
                ui.choice_menu.move_cursor(*direction);
                Ok(EditorRequest::Nothing)
            },
            UiCallbackPreset::EditEntity(coords) => {
                match ui.chunk_editor.edit_entity(*coords, &world.active_chunk) {
                    Ok(()) => Ok(EditorRequest::Nothing),
                    Err(e) => Err(e),
                }
            },
            UiCallbackPreset::EditEntityAttribute(attr, _) => {
                match attr {
                    EntityAttribute::Text(text) => {
                        ui.chunk_editor.entity_view.start_attr_text_editor(*text);
                    },
                    EntityAttribute::Choice(choice) => {
                        let names = choice.choices();
                        let options = owned_names(names);
                        assert(spec_texts(options@) =~= choice.spec_choices());
                        ui.choice_menu = ChoiceMenu::new(options);
                        ui.menu_purpose = MenuPurpose::SetChoice;
                        ui.state = UiState::ChoiceMenu;
                    },
                }
                Ok(EditorRequest::Nothing)
            },
            UiCallbackPreset::AddEntityAttribute => {
                let options = match &ui.chunk_editor.entity_view.entity {
                    None => {
                        return Err(Error::EmptySession);
                    },
                    Some(entity) => missing_attributes(entity),
                };
                ui.choice_menu = ChoiceMenu::new(options);
                ui.menu_purpose = MenuPurpose::AddAttribute;
                ui.state = UiState::ChoiceMenu;
                Ok(EditorRequest::Nothing)
            },
            UiCallbackPreset::RemoveEntityAttribute(attr) => {
                match ui.chunk_editor.entity_view.remove_attribute(attr) {
                    Ok(()) => {},
                    Err(e) => {
                        return Err(e);
                    },
                }
                match ui.chunk_editor.entity_view.validate_cursor_pos() {
                    Ok(()) => Ok(EditorRequest::Nothing),
                    Err(e) => Err(e),
                }
            },
            UiCallbackPreset::ExitStringEditor(attr, text) => {
                let result = ui.chunk_editor.entity_view.set_text_attribute(*attr, text.as_str());
                ui.chunk_editor.entity_view.state = EntityViewState::Main;
                match result {
                    Ok(()) => Ok(EditorRequest::Nothing),
                    Err(e) => Err(e),
                }
            },
            UiCallbackPreset::ChoiceMenuSelectAndExit(_) => {
                let chosen: String = match ui.choice_menu.exit() {
                    Ok(option) => option.clone(),
                    Err(e) => {
                        return Err(e);
                    },
                };
                match ui.menu_purpose {
                    MenuPurpose::SetChoice => {
                        let attr = match ui.chunk_editor.entity_view.get_current_attribute() {
                            Ok(attr) => attr,
                            Err(e) => {
                                return Err(e);
                            },
                        };
                        match attr {
                            EntityAttribute::Choice(choice) => {
                                match ui.chunk_editor.entity_view.set_choice_attr(
                                    choice,
                                    chosen.as_str(),
                                ) {
                                    Ok(()) => {},
                                    Err(e) => {
                                        return Err(e);
                                    },
                                }
                            },
                            EntityAttribute::Text(_) => {},
                        }
                    },
                    MenuPurpose::AddAttribute => {
                        if ui.chunk_editor.entity_view.entity.is_none() {
                            return Err(Error::EmptySession);
                        }
                        let attr = match EntityAttribute::from_name(chosen.as_str()) {
                            Ok(attr) => attr,
                            Err(e) => {
                                return Err(e);
                            },
                        };
                        match ui.chunk_editor.entity_view.add_attribute(&attr) {
                            Ok(()) => {},
                            Err(e) => {
                                return Err(e);
                            },
                        }
                    },
                }
                ui.state = UiState::Chunk;
                Ok(EditorRequest::Nothing)
            },
            UiCallbackPreset::ExitChoiceMenu => {
                ui.chunk_editor.entity_view.state = EntityViewState::Main;
                ui.state = UiState::Chunk;
                Ok(EditorRequest::Nothing)
            },
            UiCallbackPreset::ExitEntityView => {
                let entity = match ui.chunk_editor.entity_view.finish() {
                    Ok(entity) => entity,
                    Err(e) => {
                        return Err(e);
                    },
                };
                let coords: Coords3D = entity.coords;
                *next_valid_entity_id = world.active_chunk.overwrite_entity(
                    entity,
                    &coords,
                    *next_valid_entity_id,
                );
                ui.chunk_editor.state = ChunkEditorState::Main;
                Ok(EditorRequest::Nothing)
            },
            UiCallbackPreset::MoveDialogueEditorCursor(direction) => {
                match ui.dialogue_editor.move_highlight(direction) {
                    Ok(()) => Ok(EditorRequest::Nothing),
                    Err(e) => Err(e),
                }
            },
            UiCallbackPreset::ExitDialogueEditor => {
                ui.dialogue_editor.state = DialogueEditorState::Main;
                match ui.dialogue_editor.finish() {
                    Ok(tree) => Ok(EditorRequest::SaveDialogue(tree)),
                    Err(e) => Err(e),
                }
            },
            UiCallbackPreset::CloseUiPopup => {
                ui.close_popup();
                Ok(EditorRequest::Nothing)
            },
            UiCallbackPreset::SaveToDisk => Ok(EditorRequest::SaveProject),
        }
    }
}

impl FormattedString<LogStyle> {
    /// Whether the string is the one plain text `text`, about no cell.
    pub open spec fn text_is(self, text: Seq<char>) -> bool {
        self@ == (crate::text::FormattedStringView {
            texts: seq![crate::text::FormattedTextView { s: text, style: LogStyle::Default }],
            origin: None,
        })
    }
}

} // verus!
