use quietude::error::Error;
use quietude::quark::ui::chunk_editor::{ChunkEditor, ChunkEditorState};
use quietude::quark::ui::dialogue_editor::{DialogueEditor, DialogueEditorState};
use quietude::quark::ui::entity_view::{EntityView, EntityViewState};
use quietude::quark::ui::ui::{MenuPurpose, Ui, UiState};
use quietude::quark::ui::ui_callback::{EditorRequest, UiCallbackPreset};
use quietude::types::{Coords3D, Direction1D, Direction3D, FormattedString, FormattedText};
use quietude::ui::control_scheme::{ControlSchemeType, KeyCode};
use quietude::ui::popup_message::PopupMessage;
use quietude::world::chunk::Chunk;
use quietude::world::dialogue::{DialogueChoice, DialogueNode, DialogueTree};
use quietude::world::entity::{
    Entity, EntityAttribute, EntityAttributeChoice, EntityAttributeText, EntityType, Opacity, Size,
};
use quietude::world::item::{Item, ItemType};
use quietude::world::log::LogStyle;
use quietude::world::world::World;

fn tree_with_choices(count: usize) -> DialogueTree {
    let choices = (0..count)
        .map(|_| DialogueChoice::new(FormattedString::raw(&None, "x"), vec![], vec![], "start"))
        .collect();
    let nodes = vec![DialogueNode::new("start", FormattedString::raw(&None, "Hi."), choices)];
    DialogueTree::from_entity_name(1, 2, "Ada".to_string(), nodes).unwrap()
}

#[test]
fn the_dialogue_editor_holds_one_tree() {
    let mut editor = DialogueEditor::new();
    assert_eq!(editor.state, DialogueEditorState::Main);
    assert_eq!(editor.finish(), Err(Error::EmptySession));
    assert_eq!(editor.move_highlight(&Direction1D::Down), Err(Error::EmptySession));

    editor.cursor_pos = 5;
    editor.edit_dialogue(tree_with_choices(2));
    assert_eq!(editor.cursor_pos, 0);
    assert_eq!(editor.move_highlight(&Direction1D::Up), Ok(()));
    assert_eq!(editor.cursor_pos, 0);
    for expected in [1, 2, 2] {
        assert_eq!(editor.move_highlight(&Direction1D::Down), Ok(()));
        assert_eq!(editor.cursor_pos, expected);
    }
    assert_eq!(editor.move_highlight(&Direction1D::Up), Ok(()));
    assert_eq!(editor.cursor_pos, 1);
    editor.tree.as_mut().unwrap().make_choice("gone");
    assert_eq!(editor.move_highlight(&Direction1D::Up), Err(Error::ActiveNodeNotFound));
    assert_eq!(editor.cursor_pos, 1);

    let mut expected = tree_with_choices(2);
    expected.make_choice("gone");
    assert_eq!(editor.finish(), Ok(expected));
    assert_eq!(editor.tree, None);
    assert_eq!(editor.finish(), Err(Error::EmptySession));
    assert_eq!(editor.refresh_rate(), 60);
}

fn oak() -> Entity {
    let mut entity = Entity::new(&Coords3D(2, 3, 0));
    entity.entity_type = EntityType::Tree;
    entity.name = FormattedString::raw(&None, "Oak");
    entity.size = Some(Size::Large);
    entity.allegiance = Some("Forest".to_string());
    entity.inventory_spaces = 2;
    entity.inventory.push(Item::new_with_id(ItemType::Torch, "Torch", 3).unwrap());
    entity
}

fn chunk_with_oak() -> Chunk {
    let mut chunk = Chunk::new();
    chunk.insert_entity(4, oak());
    chunk
}

#[test]
fn the_entity_view_edits_a_copy() {
    let chunk = chunk_with_oak();
    let mut view = EntityView::new();
    assert_eq!(view.state, EntityViewState::Main);
    assert_eq!(EntityViewState::default(), EntityViewState::Main);
    assert_eq!(view.finish(), Err(Error::EmptySession));
    assert_eq!(view.get_current_attribute(), Err(Error::EmptySession));
    assert_eq!(view.move_cursor(&Direction1D::Down), Err(Error::EmptySession));
    assert_eq!(view.validate_cursor_pos(), Err(Error::EmptySession));
    assert_eq!(view.set_text_attribute(EntityAttributeText::Name, "x"), Err(Error::EmptySession));
    assert_eq!(
        view.set_choice_attr(EntityAttributeChoice::Size, "Small"),
        Err(Error::EmptySession)
    );
    let opacity = EntityAttribute::Choice(EntityAttributeChoice::Opacity);
    assert_eq!(view.add_attribute(&opacity), Err(Error::EmptySession));
    assert_eq!(view.remove_attribute(&opacity), Err(Error::EmptySession));
    assert_eq!(view.has_attribute(&opacity), Err(Error::EmptySession));

    view.cursor_pos = 3;
    view.start_editor(Coords3D(2, 3, 0), &chunk);
    assert_eq!(view.cursor_pos, 0);
    assert_eq!(view.entity, Some(oak()));
    view.set_text_attribute(EntityAttributeText::Description, "Old.").unwrap();
    assert_eq!(chunk.get_entity_from_id(4), Some(&oak()));
    assert_eq!(view.entity.as_ref().unwrap().description, FormattedString::raw(&None, "Old."));
    view.set_text_attribute(EntityAttributeText::Name, "Elm").unwrap();
    assert_eq!(view.entity.as_ref().unwrap().name.text(), "Elm");

    view.start_editor(Coords3D(0, 0, 1), &chunk);
    assert_eq!(view.entity, Some(Entity::new(&Coords3D(0, 0, 1))));
    assert_eq!(view.finish(), Ok(Entity::new(&Coords3D(0, 0, 1))));
    assert_eq!(view.entity, None);
}

#[test]
fn choices_are_set_by_their_names() {
    let chunk = chunk_with_oak();
    let mut view = EntityView::new();
    view.start_editor(Coords3D(2, 3, 0), &chunk);
    assert_eq!(view.set_choice_attr(EntityAttributeChoice::Type, "Friendly NPC"), Ok(()));
    assert_eq!(view.set_choice_attr(EntityAttributeChoice::IsRooted, "false"), Ok(()));
    assert_eq!(view.set_choice_attr(EntityAttributeChoice::HasAgency, "true"), Ok(()));
    assert_eq!(view.set_choice_attr(EntityAttributeChoice::Opacity, "Mostly Transparent"), Ok(()));
    assert_eq!(view.set_choice_attr(EntityAttributeChoice::Size, "Small"), Ok(()));
    let before = view.entity.clone();
    assert_eq!(
        view.set_choice_attr(EntityAttributeChoice::Size, "Huge"),
        Err(Error::UnknownChoice)
    );
    assert_eq!(
        view.set_choice_attr(EntityAttributeChoice::Allegiance, "Forest"),
        Err(Error::UnknownChoice)
    );
    assert_eq!(
        view.set_choice_attr(EntityAttributeChoice::Type, "NpcFriendly"),
        Err(Error::UnknownChoice)
    );
    assert_eq!(view.entity, before);
    let entity = view.finish().unwrap();
    assert_eq!(entity.entity_type, EntityType::NpcFriendly);
    assert_eq!(entity.is_rooted, Some(false));
    assert_eq!(entity.has_agency, Some(true));
    assert_eq!(entity.opacity, Some(Opacity::MostlyTransparent));
    assert_eq!(entity.size, Some(Size::Small));
    assert_eq!(entity.allegiance, Some("Forest".to_string()));
    assert_eq!(entity.inventory, oak().inventory);
}

#[test]
fn attributes_are_looked_up_by_their_place() {
    let entity = oak();
    let names: Vec<String> = EntityView::attribute_list(&entity)
        .unwrap()
        .iter()
        .map(|(key, value)| format!("{}={}", key.s, value.text()))
        .collect();
    assert_eq!(
        names,
        vec!["Type=Tree", "Name=Oak", "Description=", "Allegiance=Forest", "Size=Large"]
    );
    let list = EntityView::attribute_list(&entity).unwrap();
    assert!(list.iter().all(|(key, _)| key.style == LogStyle::Attribute));
    assert_eq!(list[4].1.texts, vec![FormattedText::new("Large", LogStyle::Value)]);

    let found = EntityView::index_to_attribute_lookup(3, &entity).unwrap();
    assert_eq!(found.0, EntityAttribute::Choice(EntityAttributeChoice::Allegiance));
    assert_eq!(found.1.text(), "Forest");
    assert_eq!(
        EntityView::index_to_attribute_lookup(0, &entity).unwrap().0,
        EntityAttribute::Choice(EntityAttributeChoice::Type)
    );
    assert_eq!(
        EntityView::index_to_attribute_lookup(5, &entity),
        Err(Error::AttributeOutOfRange(5))
    );

    let chunk = chunk_with_oak();
    let mut view = EntityView::new();
    view.start_editor(Coords3D(2, 3, 0), &chunk);
    assert_eq!(
        view.get_current_attribute(),
        Ok(EntityAttribute::Choice(EntityAttributeChoice::Type))
    );
    for expected in [1, 2, 3, 4, 4] {
        assert_eq!(view.move_cursor(&Direction1D::Down), Ok(()));
        assert_eq!(view.cursor_pos, expected);
    }
    assert_eq!(
        view.get_current_attribute(),
        Ok(EntityAttribute::Choice(EntityAttributeChoice::Size))
    );
    let size = EntityAttribute::Choice(EntityAttributeChoice::Size);
    assert_eq!(view.has_attribute(&size), Ok(true));
    assert_eq!(view.remove_attribute(&size), Ok(()));
    assert_eq!(view.has_attribute(&size), Ok(false));
    assert_eq!(view.get_current_attribute(), Err(Error::AttributeOutOfRange(4)));
    assert_eq!(view.validate_cursor_pos(), Ok(()));
    assert_eq!(view.cursor_pos, 3);
    assert_eq!(view.validate_cursor_pos(), Ok(()));
    assert_eq!(view.cursor_pos, 3);
    assert_eq!(view.add_attribute(&size), Ok(()));
    assert_eq!(view.entity.as_ref().unwrap().size, Some(Size::Medium));
    assert_eq!(view.add_attribute(&size), Err(Error::AttributePresent(size)));
    assert_eq!(view.move_cursor(&Direction1D::Up), Ok(()));
    assert_eq!(view.cursor_pos, 2);
    view.cursor_pos = 0;
    assert_eq!(view.move_cursor(&Direction1D::Up), Ok(()));
    assert_eq!(view.cursor_pos, 0);
    view.start_attr_text_editor(EntityAttributeText::Description);
    assert_eq!(view.state, EntityViewState::FormattedStringInput);
    assert_eq!(view.text_attr, EntityAttributeText::Description);
    assert_eq!(view.refresh_rate(), 60);
}

#[test]
fn attribute_names_are_read_back() {
    for attr in EntityAttribute::attribute_order() {
        assert_eq!(EntityAttribute::from_name(attr.name()), Ok(attr));
    }
    assert_eq!("Is rooted".parse(), Ok(EntityAttribute::Choice(EntityAttributeChoice::IsRooted)));
    assert_eq!("rooted".parse::<EntityAttribute>(), Err(Error::UnknownChoice));
    assert_eq!(EntityAttribute::from_name("size"), Err(Error::UnknownChoice));
    assert_eq!(EntityAttribute::from_name(""), Err(Error::UnknownChoice));
}

#[test]
fn the_chunk_editor_turns_keys_into_callbacks() {
    let scheme = ControlSchemeType::Default;
    let mut editor = ChunkEditor::new();
    assert_eq!(editor.state, ChunkEditorState::Main);
    assert_eq!(editor.cursor, quietude::ui::cursor::Cursor::default());
    assert_eq!(editor.entity_view, EntityView::new());
    assert_eq!(ChunkEditorState::default(), ChunkEditorState::Main);
    editor.cursor.coords = Coords3D(2, 3, 0);
    assert_eq!(
        editor.handle_key_events(KeyCode::Char('w'), scheme),
        Some(UiCallbackPreset::MoveChunkEditorCursor(Direction3D::North))
    );
    assert_eq!(
        editor.handle_key_events(KeyCode::Right, scheme),
        Some(UiCallbackPreset::MoveChunkEditorCursor(Direction3D::East))
    );
    assert_eq!(
        editor.handle_key_events(KeyCode::Char('e'), scheme),
        Some(UiCallbackPreset::EditEntity(Coords3D(2, 3, 0)))
    );
    assert_eq!(
        editor.handle_key_events(KeyCode::Char('x'), scheme),
        Some(UiCallbackPreset::SaveToDisk)
    );
    assert_eq!(editor.handle_key_events(KeyCode::Esc, scheme), None);
    assert_eq!(editor.handle_key_events(KeyCode::Char('z'), scheme), None);
    assert_eq!(editor.refresh_rate(), 60);

    assert_eq!(editor.edit_entity(Coords3D(2, 3, 0), &chunk_with_oak()), Ok(()));
    assert_eq!(editor.state, ChunkEditorState::EntityView);
    assert_eq!(editor.entity_view.entity, Some(oak()));
    assert_eq!(editor.refresh_rate(), 60);
}

fn editing() -> (World, Ui, u32) {
    let mut world = World::from_seed(0).unwrap();
    world.active_chunk = chunk_with_oak();
    (world, Ui::new(), 9)
}

#[test]
fn editor_callbacks_edit_an_entity() {
    let (mut world, mut ui, mut next) = editing();
    assert_eq!(UiState::default(), UiState::Chunk);
    let done = Ok(EditorRequest::Nothing);
    let moved = UiCallbackPreset::MoveChunkEditorCursor(Direction3D::South);
    assert_eq!(moved.call(&mut world, &mut ui, &mut next), done);
    assert_eq!(ui.chunk_editor.cursor.coords, Coords3D(0, 1, 0));
    assert_eq!(
        UiCallbackPreset::ExitEntityView.call(&mut world, &mut ui, &mut next),
        Err(Error::EmptySession)
    );
    assert_eq!(
        UiCallbackPreset::AddEntityAttribute.call(&mut world, &mut ui, &mut next),
        Err(Error::EmptySession)
    );
    assert_eq!(
        UiCallbackPreset::MoveEntityViewCursor(Direction1D::Down)
            .call(&mut world, &mut ui, &mut next),
        Err(Error::EmptySession)
    );

    let edit = UiCallbackPreset::EditEntity(Coords3D(2, 3, 0));
    assert_eq!(edit.call(&mut world, &mut ui, &mut next), done);
    assert_eq!(ui.chunk_editor.state, ChunkEditorState::EntityView);
    let down = UiCallbackPreset::MoveEntityViewCursor(Direction1D::Down);
    for _ in 0..4 {
        assert_eq!(down.call(&mut world, &mut ui, &mut next), done);
    }
    assert_eq!(ui.chunk_editor.entity_view.cursor_pos, 4);

    let size = EntityAttribute::Choice(EntityAttributeChoice::Size);
    let pick = UiCallbackPreset::EditEntityAttribute(size, FormattedString::raw(&None, "Large"));
    assert_eq!(pick.call(&mut world, &mut ui, &mut next), done);
    assert_eq!(ui.state, UiState::ChoiceMenu);
    assert_eq!(ui.menu_purpose, MenuPurpose::SetChoice);
    assert_eq!(ui.choice_menu.options, vec!["Small", "Medium", "Large"]);
    let menu_down = UiCallbackPreset::MoveChoiceMenuCursor(Direction1D::Down);
    assert_eq!(menu_down.call(&mut world, &mut ui, &mut next), done);
    let select = UiCallbackPreset::ChoiceMenuSelectAndExit(String::new());
    assert_eq!(select.call(&mut world, &mut ui, &mut next), done);
    assert_eq!(ui.state, UiState::Chunk);
    assert_eq!(ui.chunk_editor.entity_view.entity.as_ref().unwrap().size, Some(Size::Medium));

    assert_eq!(
        UiCallbackPreset::AddEntityAttribute.call(&mut world, &mut ui, &mut next),
        done
    );
    assert_eq!(ui.menu_purpose, MenuPurpose::AddAttribute);
    assert_eq!(ui.choice_menu.options, vec!["Is rooted", "Has agency", "Opacity"]);
    assert_eq!(menu_down.call(&mut world, &mut ui, &mut next), done);
    assert_eq!(select.call(&mut world, &mut ui, &mut next), done);
    assert_eq!(ui.chunk_editor.entity_view.entity.as_ref().unwrap().has_agency, Some(false));
    assert_eq!(ui.state, UiState::Chunk);

    let name = EntityAttribute::Text(EntityAttributeText::Name);
    let write = UiCallbackPreset::EditEntityAttribute(name, FormattedString::raw(&None, "Oak"));
    assert_eq!(write.call(&mut world, &mut ui, &mut next), done);
    assert_eq!(ui.chunk_editor.entity_view.state, EntityViewState::FormattedStringInput);
    assert_eq!(ui.chunk_editor.entity_view.text_attr, EntityAttributeText::Name);
    let written = UiCallbackPreset::ExitStringEditor(EntityAttributeText::Name, "Elm".to_string());
    assert_eq!(written.call(&mut world, &mut ui, &mut next), done);
    assert_eq!(ui.chunk_editor.entity_view.state, EntityViewState::Main);
    assert_eq!(ui.chunk_editor.entity_view.entity.as_ref().unwrap().name.text(), "Elm");

    let remove = UiCallbackPreset::RemoveEntityAttribute(size);
    assert_eq!(remove.call(&mut world, &mut ui, &mut next), done);
    assert_eq!(
        remove.call(&mut world, &mut ui, &mut next),
        Err(Error::AttributeAbsent(size))
    );
    assert_eq!(
        UiCallbackPreset::RemoveEntityAttribute(name).call(&mut world, &mut ui, &mut next),
        Err(Error::AttributeRequired(name))
    );
    assert_eq!(ui.chunk_editor.entity_view.cursor_pos, 4);

    assert_eq!(world.active_chunk, chunk_with_oak());
    assert_eq!(UiCallbackPreset::ExitEntityView.call(&mut world, &mut ui, &mut next), done);
    assert_eq!(next, 9);
    assert_eq!(ui.chunk_editor.state, ChunkEditorState::Main);
    let stored = world.active_chunk.get_entity_from_id(4).unwrap();
    assert_eq!(stored.name.text(), "Elm");
    assert_eq!(stored.size, None);
    assert_eq!(stored.has_agency, Some(false));
    assert_eq!(stored.coords, Coords3D(2, 3, 0));
    assert_eq!(world.active_chunk.len(), 1);

    let fresh = UiCallbackPreset::EditEntity(Coords3D(0, 0, 0));
    assert_eq!(fresh.call(&mut world, &mut ui, &mut next), done);
    assert_eq!(UiCallbackPreset::ExitEntityView.call(&mut world, &mut ui, &mut next), done);
    assert_eq!(next, 10);
    assert_eq!(world.active_chunk.get_entity_from_id(9), Some(&Entity::new(&Coords3D(0, 0, 0))));
}

#[test]
fn editor_callbacks_ask_for_what_they_cannot_do() {
    let (mut world, mut ui, mut next) = editing();
    assert_eq!(
        UiCallbackPreset::SaveToDisk.call(&mut world, &mut ui, &mut next),
        Ok(EditorRequest::SaveProject)
    );
    assert_eq!(
        UiCallbackPreset::ExitDialogueEditor.call(&mut world, &mut ui, &mut next),
        Err(Error::EmptySession)
    );
    assert_eq!(
        UiCallbackPreset::MoveDialogueEditorCursor(Direction1D::Down)
            .call(&mut world, &mut ui, &mut next),
        Err(Error::EmptySession)
    );
    ui.dialogue_editor.edit_dialogue(tree_with_choices(1));
    ui.dialogue_editor.state = DialogueEditorState::EditingOption;
    assert_eq!(
        UiCallbackPreset::MoveDialogueEditorCursor(Direction1D::Down)
            .call(&mut world, &mut ui, &mut next),
        Ok(EditorRequest::Nothing)
    );
    assert_eq!(ui.dialogue_editor.cursor_pos, 1);
    assert_eq!(
        UiCallbackPreset::ExitDialogueEditor.call(&mut world, &mut ui, &mut next),
        Ok(EditorRequest::SaveDialogue(tree_with_choices(1)))
    );
    assert_eq!(ui.dialogue_editor.state, DialogueEditorState::Main);
    assert_eq!(ui.dialogue_editor.tree, None);

    ui.set_popup(PopupMessage::Failure(FormattedString::raw(&None, "no")));
    assert_eq!(
        UiCallbackPreset::CloseUiPopup.call(&mut world, &mut ui, &mut next),
        Ok(EditorRequest::Nothing)
    );
    assert!(ui.popup_messages.is_empty());
    ui.state = UiState::ChoiceMenu;
    assert_eq!(
        UiCallbackPreset::ExitChoiceMenu.call(&mut world, &mut ui, &mut next),
        Ok(EditorRequest::Nothing)
    );
    assert_eq!(ui.state, UiState::Chunk);
    assert_eq!(
        UiCallbackPreset::ChoiceMenuSelectAndExit(String::new())
            .call(&mut world, &mut ui, &mut next),
        Err(Error::EmptySession)
    );
    ui.move_cursor(&Direction3D::Down);
    assert_eq!(ui.chunk_editor.cursor.coords, Coords3D(0, 0, -1));
    assert_eq!((world, next), (editing().0, 9));
}

#[test]
fn the_editor_turns_keys_into_callbacks() {
    let (world, mut ui, _) = editing();
    assert_eq!(ui.get_current_refresh_rate(), 60);
    assert_eq!(
        ui.handle_key_events(KeyCode::Char('s'), ""),
        Some(UiCallbackPreset::MoveChunkEditorCursor(Direction3D::South))
    );
    ui.set_popup(PopupMessage::Notice(FormattedString::raw(&None, "saved")));
    assert_eq!(ui.handle_key_events(KeyCode::Char('s'), ""), None);
    assert_eq!(ui.handle_key_events(KeyCode::Enter, ""), Some(UiCallbackPreset::CloseUiPopup));
    ui.close_popup();

    ui.state = UiState::Dialogue;
    assert_eq!(
        ui.handle_key_events(KeyCode::Char('w'), ""),
        Some(UiCallbackPreset::MoveDialogueEditorCursor(Direction1D::Up))
    );
    assert_eq!(
        ui.handle_key_events(KeyCode::Down, ""),
        Some(UiCallbackPreset::MoveDialogueEditorCursor(Direction1D::Down))
    );
    assert_eq!(
        ui.handle_key_events(KeyCode::Esc, ""),
        Some(UiCallbackPreset::ExitDialogueEditor)
    );
    assert_eq!(ui.handle_key_events(KeyCode::Enter, ""), None);

    ui.state = UiState::ChoiceMenu;
    assert_eq!(ui.handle_key_events(KeyCode::Enter, ""), None);
    ui.choice_menu.options = vec!["Small".to_string(), "Large".to_string()];
    ui.choice_menu.index = 1;
    assert_eq!(
        ui.handle_key_events(KeyCode::Enter, ""),
        Some(UiCallbackPreset::ChoiceMenuSelectAndExit("Large".to_string()))
    );
    assert_eq!(
        ui.handle_key_events(KeyCode::Up, ""),
        Some(UiCallbackPreset::MoveChoiceMenuCursor(Direction1D::Up))
    );
    assert_eq!(
        ui.handle_key_events(KeyCode::Char('s'), ""),
        Some(UiCallbackPreset::MoveChoiceMenuCursor(Direction1D::Down))
    );
    assert_eq!(ui.handle_key_events(KeyCode::Esc, ""), Some(UiCallbackPreset::ExitChoiceMenu));
    assert_eq!(ui.handle_key_events(KeyCode::Char('d'), ""), None);

    ui.state = UiState::Chunk;
    ui.chunk_editor.edit_entity(Coords3D(2, 3, 0), &world.active_chunk).unwrap();
    assert_eq!(
        ui.handle_key_events(KeyCode::Char('w'), ""),
        Some(UiCallbackPreset::MoveEntityViewCursor(Direction1D::Up))
    );
    assert_eq!(
        ui.handle_key_events(KeyCode::Down, ""),
        Some(UiCallbackPreset::MoveEntityViewCursor(Direction1D::Down))
    );
    assert_eq!(
        ui.handle_key_events(KeyCode::Char('a'), ""),
        Some(UiCallbackPreset::AddEntityAttribute)
    );
    assert_eq!(
        ui.handle_key_events(KeyCode::Char('e'), ""),
        Some(UiCallbackPreset::AddEntityAttribute)
    );
    assert_eq!(ui.handle_key_events(KeyCode::Esc, ""), Some(UiCallbackPreset::ExitEntityView));
    ui.chunk_editor.entity_view.cursor_pos = 4;
    assert_eq!(
        ui.handle_key_events(KeyCode::Enter, ""),
        Some(UiCallbackPreset::EditEntityAttribute(
            EntityAttribute::Choice(EntityAttributeChoice::Size),
            FormattedString::from(&None, FormattedText::new("Large", LogStyle::Value))
        ))
    );
    assert_eq!(
        ui.handle_key_events(KeyCode::Char('r'), ""),
        Some(UiCallbackPreset::RemoveEntityAttribute(EntityAttribute::Choice(
            EntityAttributeChoice::Size
        )))
    );
    ui.chunk_editor.entity_view.cursor_pos = 5;
    assert_eq!(ui.handle_key_events(KeyCode::Enter, ""), None);
    assert_eq!(ui.handle_key_events(KeyCode::Char('r'), ""), None);

    ui.chunk_editor.entity_view.start_attr_text_editor(EntityAttributeText::Description);
    assert_eq!(ui.handle_key_events(KeyCode::Char('w'), "Ol"), None);
    assert_eq!(ui.handle_key_events(KeyCode::Enter, "Old"), None);
    assert_eq!(
        ui.handle_key_events(KeyCode::Esc, "Old"),
        Some(UiCallbackPreset::ExitStringEditor(
            EntityAttributeText::Description,
            "Old".to_string()
        ))
    );
    ui.chunk_editor.entity_view.entity = None;
    ui.chunk_editor.entity_view.state = EntityViewState::Main;
    assert_eq!(ui.handle_key_events(KeyCode::Enter, ""), None);
    assert_eq!(ui.handle_key_events(KeyCode::Char('r'), ""), None);
}
