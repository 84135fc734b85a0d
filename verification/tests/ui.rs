use quietude::error::Error;
use quietude::types::{Coords3D, Direction1D, Direction3D, FormattedString, Message};
use quietude::ui::choice_menu::ChoiceMenu;
use quietude::ui::control_scheme::{first_of, ControlSchemeType, KeyCode, UiKey};
use quietude::ui::cursor::{Cursor, CursorStyle};
use quietude::ui::dialogue_window::DialogueWindow;
use quietude::ui::log_window::LogWindow;
use quietude::ui::main_screen::{MainScreen, ScreenState};
use quietude::ui::overworld_window::OverworldWindow;
use quietude::ui::popup_message::PopupMessage;
use quietude::ui::splash_screen::{
    colors, preset_q, titles, Direction, SplashColor, SplashScreen, State, BLOOM, BULB,
};
use quietude::ui::ui::{Ui, UiState, UiWindow};
use quietude::ui::ui_callback::{UiCallbackPreset, PLAYER_ID};
use quietude::world::conditions::WorldCondition;
use quietude::world::dialogue::{DialogueChoice, DialogueNode, DialoguePrecondition};
use quietude::world::entity::Entity;
use quietude::world::world::World;

#[test]
fn test_contents_to_string() {
    let sweep = SplashScreen {
        outline: vec![],
        contents: vec![
            vec!['a', 'b', 'c'],
            vec!['d', 'e', 'f'],
            vec!['g', 'h', 'i'],
        ],
        direction: Direction::default(),
        state: State::default(),
        title_color: SplashColor::Red,
        title: titles()[1],
        tick: 0,
        refresh_rate: 100,
    };

    assert_eq!(sweep.to_string(), "abc\ndef\nghi\n");
}

#[test]
fn the_scheme_maps_keys_to_meanings() {
    let scheme = ControlSchemeType::default();
    assert_eq!(scheme.keys_from_code(KeyCode::Char('q')), Some(vec![UiKey::Quit]));
    assert_eq!(scheme.keys_from_code(KeyCode::Char('Q')), Some(vec![UiKey::Quit]));
    assert_eq!(
        scheme.keys_from_code(KeyCode::Char('w')),
        Some(vec![UiKey::MoveNorth, UiKey::MoveUp])
    );
    assert_eq!(
        scheme.keys_from_code(KeyCode::Char('a')),
        Some(vec![UiKey::MoveWest, UiKey::AddItem])
    );
    assert_eq!(
        scheme.keys_from_code(KeyCode::Char('s')),
        Some(vec![UiKey::MoveSouth, UiKey::MoveDown])
    );
    assert_eq!(scheme.keys_from_code(KeyCode::Char('d')), Some(vec![UiKey::MoveEast]));
    assert_eq!(scheme.keys_from_code(KeyCode::Char('y')), Some(vec![UiKey::YesToDialog]));
    assert_eq!(scheme.keys_from_code(KeyCode::Char('n')), Some(vec![UiKey::NoToDialog]));
    assert_eq!(scheme.keys_from_code(KeyCode::Char('x')), Some(vec![UiKey::Save]));
    assert_eq!(
        scheme.keys_from_code(KeyCode::Char('e')),
        Some(vec![UiKey::EditEntity, UiKey::AddItem])
    );
    assert_eq!(scheme.keys_from_code(KeyCode::Char('r')), Some(vec![UiKey::RemoveItem]));
    assert_eq!(scheme.keys_from_code(KeyCode::Up), Some(vec![UiKey::MoveNorth, UiKey::MoveUp]));
    assert_eq!(scheme.keys_from_code(KeyCode::Left), Some(vec![UiKey::MoveWest]));
    assert_eq!(
        scheme.keys_from_code(KeyCode::Down),
        Some(vec![UiKey::MoveSouth, UiKey::MoveDown])
    );
    assert_eq!(scheme.keys_from_code(KeyCode::Right), Some(vec![UiKey::MoveEast]));
    assert_eq!(
        scheme.keys_from_code(KeyCode::Enter),
        Some(vec![UiKey::Confirm, UiKey::YesToDialog])
    );
    assert_eq!(scheme.keys_from_code(KeyCode::Esc), Some(vec![UiKey::ExitSubmenu]));
    assert_eq!(scheme.keys_from_code(KeyCode::Char('z')), None);
    assert_eq!(scheme.keys_from_code(KeyCode::Other), None);

    assert!(scheme.code_yields_key(KeyCode::Enter, UiKey::YesToDialog));
    assert!(scheme.code_yields_key(KeyCode::Enter, UiKey::Confirm));
    assert!(!scheme.code_yields_key(KeyCode::Enter, UiKey::NoToDialog));
    assert!(scheme.code_yields_key(KeyCode::Char('a'), UiKey::AddItem));
    assert!(!scheme.code_yields_key(KeyCode::Char('z'), UiKey::Quit));
    assert!(!scheme.code_yields_key(KeyCode::Other, UiKey::Quit));

    let keys = vec![UiKey::MoveWest, UiKey::AddItem, UiKey::Quit];
    assert_eq!(first_of(&keys, &vec![UiKey::Quit, UiKey::AddItem]), Some(UiKey::AddItem));
    assert_eq!(first_of(&keys, &vec![UiKey::Save]), None);
    assert_eq!(first_of(&keys, &vec![]), None);
    assert_eq!(first_of(&vec![], &keys), None);
}

#[test]
fn the_cursor_blinks_and_moves() {
    let mut cursor = Cursor::default();
    assert_eq!(cursor.coords, Coords3D(0, 0, 0));
    assert_eq!(cursor.style, CursorStyle::SteadyBlock);
    assert!(!cursor.visible);
    let pairs = [
        (CursorStyle::SteadyBar, CursorStyle::BlinkingBar),
        (CursorStyle::SteadyBlock, CursorStyle::BlinkingBlock),
        (CursorStyle::SteadyUnderScore, CursorStyle::BlinkingUnderScore),
    ];
    for (steady, blinking) in pairs {
        cursor.style = steady;
        cursor.toggle_blinking();
        assert_eq!(cursor.style, blinking);
        cursor.toggle_blinking();
        assert_eq!(cursor.style, steady);
    }
    cursor.style = CursorStyle::DefaultUserShape;
    cursor.toggle_blinking();
    assert_eq!(cursor.style, CursorStyle::BlinkingBar);

    cursor.move_in_direction(&Direction3D::Southeast);
    assert_eq!(cursor.coords, Coords3D(1, 1, 0));
    cursor.coords = Coords3D(i32::MAX, 0, 0);
    cursor.move_in_direction(&Direction3D::East);
    assert_eq!(cursor.coords, Coords3D(i32::MAX, 0, 0));
}

#[test]
fn the_menu_cursor_stays_on_the_options() {
    let mut menu = ChoiceMenu::new(vec!["a".to_string(), "b".to_string(), "c".to_string()]);
    assert_eq!(menu.get_cursor_pos(), 0);
    assert_eq!(menu.exit(), Ok(&"a".to_string()));
    menu.move_cursor(Direction1D::Up);
    assert_eq!(menu.get_cursor_pos(), 0);
    menu.move_cursor(Direction1D::Down);
    menu.move_cursor(Direction1D::Down);
    assert_eq!(menu.get_cursor_pos(), 2);
    menu.move_cursor(Direction1D::Down);
    assert_eq!(menu.get_cursor_pos(), 2);
    assert_eq!(menu.exit(), Ok(&"c".to_string()));
    menu.move_cursor(Direction1D::Up);
    assert_eq!(menu.get_cursor_pos(), 1);

    let mut empty = ChoiceMenu::default();
    empty.move_cursor(Direction1D::Down);
    assert_eq!(empty.get_cursor_pos(), 0);
    assert_eq!(empty.exit(), Err(Error::EmptySession));
}

#[test]
fn the_dialogue_highlight_stays_in_range() {
    let mut window = DialogueWindow::new();
    assert_eq!(window.active_choice, 0);
    assert_eq!(window.move_highlight(Direction1D::Up, 3), Ok(()));
    assert_eq!(window.active_choice, 0);
    for expected in [1, 2, 3, 3] {
        assert_eq!(window.move_highlight(Direction1D::Down, 3), Ok(()));
        assert_eq!(window.active_choice, expected);
    }
    assert_eq!(window.move_highlight(Direction1D::Up, 3), Ok(()));
    assert_eq!(window.active_choice, 2);
    assert_eq!(window.move_highlight(Direction1D::Up, 0), Ok(()));
    assert_eq!(window.active_choice, 2);
    assert_eq!(window.move_highlight(Direction1D::Down, 0), Ok(()));
    assert_eq!(window.active_choice, 2);
    assert_eq!(window.refresh_rate(), 60);
}

#[test]
fn windows_turn_keys_into_callbacks() {
    let scheme = ControlSchemeType::Default;
    let overworld = OverworldWindow::new();
    assert_eq!(
        overworld.handle_key_events(KeyCode::Char('w'), scheme),
        Some(UiCallbackPreset::MovePlayer(Direction3D::North))
    );
    assert_eq!(
        overworld.handle_key_events(KeyCode::Char('a'), scheme),
        Some(UiCallbackPreset::MovePlayer(Direction3D::West))
    );
    assert_eq!(
        overworld.handle_key_events(KeyCode::Down, scheme),
        Some(UiCallbackPreset::MovePlayer(Direction3D::South))
    );
    assert_eq!(
        overworld.handle_key_events(KeyCode::Right, scheme),
        Some(UiCallbackPreset::MovePlayer(Direction3D::East))
    );
    assert_eq!(overworld.handle_key_events(KeyCode::Enter, scheme), None);
    assert_eq!(overworld.handle_key_events(KeyCode::Char('q'), scheme), None);
    assert_eq!(overworld.handle_key_events(KeyCode::Other, scheme), None);
    assert_eq!(overworld.get_refresh_rate(), 60);

    let mut dialogue = DialogueWindow::new();
    dialogue.active_choice = 2;
    assert_eq!(
        dialogue.handle_key_events(KeyCode::Up, scheme),
        Some(UiCallbackPreset::MoveDialogueHighlight(Direction1D::Up))
    );
    assert_eq!(
        dialogue.handle_key_events(KeyCode::Char('s'), scheme),
        Some(UiCallbackPreset::MoveDialogueHighlight(Direction1D::Down))
    );
    assert_eq!(
        dialogue.handle_key_events(KeyCode::Enter, scheme),
        Some(UiCallbackPreset::SelectDialogueEntry(2))
    );
    assert_eq!(dialogue.handle_key_events(KeyCode::Char('d'), scheme), None);

    let log = LogWindow::new();
    assert_eq!(log.handle_key_events(KeyCode::Enter, scheme), None);
    assert_eq!(log.refresh_rate(), 60);

    let mut screen = MainScreen::new();
    assert_eq!(screen.state, ScreenState::Overworld);
    assert_eq!(ScreenState::default(), ScreenState::Overworld);
    assert_eq!(
        screen.handle_key_events(KeyCode::Char('d'), scheme),
        Some(UiCallbackPreset::MovePlayer(Direction3D::East))
    );
    screen.state = ScreenState::Dialogue;
    assert_eq!(
        screen.handle_key_events(KeyCode::Enter, scheme),
        Some(UiCallbackPreset::SelectDialogueEntry(0))
    );
    screen.state = ScreenState::Log;
    assert_eq!(screen.handle_key_events(KeyCode::Enter, scheme), None);
    assert_eq!(screen.refresh_rate(), 60);
}

#[test]
fn popups_take_the_keys_first() {
    let mut ui = Ui::new();
    assert_eq!(ui.state, UiState::Splash);
    assert_eq!(UiState::default(), UiState::Splash);
    assert_ne!(UiWindow::Main, UiWindow::Log);
    assert_eq!(ui.get_current_refresh_rate(), 100);
    assert_eq!(ui.handle_key_events(KeyCode::Char('w')), None);
    assert_eq!(ui.splash_screen.state, State::Sweep);
    let mut updates = 0;
    while ui.splash_screen.state == State::Sweep {
        ui.update();
        updates += 1;
    }
    assert_eq!((updates, ui.state), (94, UiState::Splash));
    assert_eq!(ui.handle_key_events(KeyCode::Other), None);
    while ui.state == UiState::Splash {
        ui.update();
        updates += 1;
    }
    assert_eq!((updates, ui.splash_screen.state), (188, State::Done));
    assert_eq!(ui.get_current_refresh_rate(), 60);
    let shown = ui.splash_screen.to_string();
    ui.update();
    assert_eq!(ui.splash_screen.to_string(), shown);
    assert_eq!(ui.state, UiState::Main);
    assert_eq!(
        ui.handle_key_events(KeyCode::Char('w')),
        Some(UiCallbackPreset::MovePlayer(Direction3D::North))
    );
    ui.set_popup(PopupMessage::Notice(FormattedString::raw(&None, "first")));
    ui.set_popup(PopupMessage::Failure(FormattedString::raw(&None, "second")));
    assert_eq!(ui.handle_key_events(KeyCode::Char('w')), None);
    assert_eq!(ui.handle_key_events(KeyCode::Char('y')), Some(UiCallbackPreset::CloseUiPopup));
    assert_eq!(ui.handle_key_events(KeyCode::Char('n')), Some(UiCallbackPreset::CloseUiPopup));
    assert_eq!(ui.handle_key_events(KeyCode::Enter), Some(UiCallbackPreset::CloseUiPopup));
    ui.close_popup();
    assert_eq!(
        ui.popup_messages,
        vec![PopupMessage::Failure(FormattedString::raw(&None, "second"))]
    );
    ui.close_popup();
    ui.close_popup();
    assert!(ui.popup_messages.is_empty());
    ui.set_popup(PopupMessage::SaveNameDialog);
    assert_eq!(ui.handle_key_events(KeyCode::Char('y')), None);

    ui.move_cursor(&Direction3D::Up);
    assert_eq!(ui.main_screen.overworld_window.cursor.coords, Coords3D(0, 0, 1));
    ui.move_dialogue_highlight(&Direction1D::Down, 1);
    ui.move_dialogue_highlight(&Direction1D::Down, 1);
    assert_eq!(ui.main_screen.dialogue_window.active_choice, 1);
}

fn small_world() -> World {
    let mut world = World::from_seed(1).unwrap();
    world.max_noise = 0;
    let mut player = Entity::new(&Coords3D(0, 0, 0));
    player.description = FormattedString::raw(&None, "You.");
    world.active_chunk.insert_entity(PLAYER_ID, player);
    world
}

#[test]
fn callbacks_act_on_world_and_windows() {
    let mut world = small_world();
    let mut ui = Ui::new();
    let title = ui.splash_screen.title;
    assert_eq!(UiCallbackPreset::Nothing.call(&mut world, &mut ui), Ok(None));
    assert_eq!(world, small_world());
    assert_eq!(ui.state, UiState::Splash);
    assert_eq!(ui.splash_screen, SplashScreen::with(title, ui.splash_screen.title_color));
    assert!(ui.popup_messages.is_empty());

    assert_eq!(
        UiCallbackPreset::MovePlayer(Direction3D::East).call(&mut world, &mut ui),
        Ok(None)
    );
    assert!(world.pass_tick);
    assert_eq!(world.active_chunk.get_entity_coords(PLAYER_ID), Some(&Coords3D(1, 0, 0)));

    assert_eq!(
        UiCallbackPreset::InspectEntity(PLAYER_ID).call(&mut world, &mut ui),
        Ok(Some(Message::Log(FormattedString::raw(&None, "You."))))
    );
    assert_eq!(
        UiCallbackPreset::InspectEntity(77).call(&mut world, &mut ui),
        Err(Error::EntityNotFound(77))
    );

    assert_eq!(
        UiCallbackPreset::SetSavename("autumn".to_string()).call(&mut world, &mut ui),
        Ok(None)
    );
    assert_eq!(world.savename, Some("autumn".to_string()));

    assert_eq!(
        UiCallbackPreset::MoveCursor(Direction3D::North).call(&mut world, &mut ui),
        Ok(None)
    );
    assert_eq!(ui.main_screen.overworld_window.cursor.coords, Coords3D(0, -1, 0));

    ui.set_popup(PopupMessage::Notice(FormattedString::raw(&None, "hello")));
    assert_eq!(UiCallbackPreset::CloseUiPopup.call(&mut world, &mut ui), Ok(None));
    assert!(ui.popup_messages.is_empty());
    assert_eq!(UiCallbackPreset::CloseUiPopup.call(&mut world, &mut ui), Ok(None));

    assert_eq!(UiCallbackPreset::Wait(3).call(&mut world, &mut ui), Ok(None));
    assert_eq!(world.tick, 3);
    world.tick = u32::MAX - 1;
    assert_eq!(UiCallbackPreset::Wait(3).call(&mut world, &mut ui), Ok(None));
    assert_eq!(world.tick, u32::MAX - 1);

    world.pass_tick = false;
    assert_eq!(UiCallbackPreset::TalkToEntity(4).call(&mut world, &mut ui), Ok(None));
    assert!(world.pass_tick);
    assert_eq!(world.dialogue_tree, None);
}

#[test]
fn dialogue_callbacks_need_a_dialogue() {
    let mut world = small_world();
    let mut ui = Ui::new();
    assert_eq!(
        UiCallbackPreset::MoveDialogueHighlight(Direction1D::Down).call(&mut world, &mut ui),
        Err(Error::NoActiveDialogue)
    );
    assert_eq!(
        UiCallbackPreset::SelectDialogueEntry(0).call(&mut world, &mut ui),
        Err(Error::NoActiveDialogue)
    );
    let open = DialogueChoice::new(FormattedString::raw(&None, "Go on."), vec![], vec![], "next");
    let shut = DialogueChoice::new(
        FormattedString::raw(&None, "Secret."),
        vec![DialoguePrecondition::WorldConditionIsActive(WorldCondition::DiscoveredTimeIsles)],
        vec![],
        "next",
    );
    let nodes = vec![
        DialogueNode::new("start", FormattedString::raw(&None, "Hello."), vec![shut, open]),
        DialogueNode::new("next", FormattedString::raw(&None, "Bye."), vec![]),
    ];
    world.begin_dialogue(5, PLAYER_ID, "Guide".to_string(), nodes).unwrap();
    for expected in [1, 1] {
        assert_eq!(
            UiCallbackPreset::MoveDialogueHighlight(Direction1D::Down).call(&mut world, &mut ui),
            Ok(None)
        );
        assert_eq!(ui.main_screen.dialogue_window.active_choice, expected);
    }
    assert_eq!(
        UiCallbackPreset::SelectDialogueEntry(1).call(&mut world, &mut ui),
        Err(Error::ChoiceOutOfRange(1))
    );
    assert_eq!(UiCallbackPreset::SelectDialogueEntry(0).call(&mut world, &mut ui), Ok(None));
    assert_eq!(world.dialogue_tree.as_ref().unwrap().active_node_name, "next");
    world.dialogue_tree.as_mut().unwrap().make_choice("gone");
    assert_eq!(
        UiCallbackPreset::MoveDialogueHighlight(Direction1D::Up).call(&mut world, &mut ui),
        Err(Error::ActiveNodeNotFound)
    );
}

fn picture(outline: &[Vec<bool>]) -> String {
    let mut text = String::new();
    for row in outline {
        for cell in row {
            text.push(if *cell { 'Q' } else { ' ' });
        }
        text.push('\n');
    }
    text
}

#[test]
fn the_splash_screen_sweeps_the_letter_on_and_off() {
    let mut screen = SplashScreen::with(titles()[1], colors()[3]);
    assert_eq!(screen.title, "quintessence");
    assert_eq!(screen.title_color, SplashColor::Green);
    assert_eq!(screen.state, State::Start);
    assert_eq!(screen.get_refresh_rate(), 100);
    assert_eq!(screen.outline.len(), 24);
    assert!(screen.outline.iter().all(|row| row.len() == 48));
    assert_eq!(picture(&screen.outline), preset_q().join("\n") + "\n");
    let blank = " ".repeat(48) + "\n";
    assert_eq!(screen.to_string(), blank.repeat(24));
    assert_eq!(colors().len(), 5);

    screen.update();
    assert_eq!((screen.state, screen.tick), (State::Start, 0));
    screen.unsweep();
    assert_eq!(screen.state, State::Start);
    assert_eq!(screen.handle_key_events(KeyCode::Other), None);
    assert_eq!(screen.state, State::Sweep);
    screen.sweep();
    assert_eq!(screen.handle_key_events(KeyCode::Enter), None);
    assert_eq!(screen.state, State::Sweep);

    let count = |screen: &SplashScreen, wanted: char| {
        screen.contents.iter().flatten().filter(|ch| **ch == wanted).count()
    };
    for _ in 0..30 {
        screen.update();
    }
    assert_eq!(screen.tick, 30);
    assert_eq!(
        (count(&screen, '.'), count(&screen, BULB), count(&screen, BLOOM), count(&screen, 'Q')),
        (6, 6, 6, 109)
    );
    let mut updates = 30;
    while screen.state == State::Sweep {
        screen.update();
        updates += 1;
    }
    assert_eq!((updates, screen.state, screen.tick), (94, State::Wait, 93));
    assert_eq!(screen.to_string(), picture(&screen.outline));
    screen.update();
    assert_eq!((screen.state, screen.tick), (State::Wait, 93));

    screen.handle_key_events(KeyCode::Other);
    assert_eq!((screen.state, screen.tick), (State::Unsweep, 0));
    let mut updates = 0;
    while screen.state == State::Unsweep {
        screen.update();
        updates += 1;
    }
    assert_eq!((updates, screen.state, screen.tick), (94, State::Done, 93));
    assert_eq!(screen.to_string(), blank.repeat(24));
    screen.handle_key_events(KeyCode::Other);
    assert_eq!(screen.state, State::Done);
}

#[test]
fn a_new_splash_screen_picks_from_what_there_is() {
    for _ in 0..50 {
        let screen = SplashScreen::new();
        assert!(titles().contains(&screen.title));
        assert!(colors().contains(&screen.title_color));
        let plain = SplashScreen::with(screen.title, screen.title_color);
        assert_eq!(screen, plain);
    }
    assert_eq!(titles(), vec!["quietude", "quintessence", "quark"]);
}

#[test]
fn a_small_sweep_grows_dot_by_dot() {
    let mut screen = SplashScreen::with(titles()[0], colors()[0]);
    assert_eq!(screen.title, "quietude");
    assert_eq!(screen.title_color, SplashColor::Red);
    screen.outline = vec![vec![true, true, false], vec![false, true, true]];
    screen.contents = vec![vec![' '; 3], vec![' '; 3]];
    screen.sweep();
    let expected = [
        "   \n   \n",
        "   \n  .\n",
        " . \n  \u{25cf}\n",
        ".\u{25cf} \n .\u{203b}\n",
        "\u{25cf}\u{203b} \n \u{25cf}Q\n",
        "\u{203b}Q \n \u{203b}Q\n",
    ];
    for (tick, text) in expected.iter().enumerate() {
        screen.update();
        assert_eq!(screen.tick as usize, tick + 1);
        assert_eq!(&screen.to_string(), text);
    }

    let mut ragged = SplashScreen::with(titles()[2], colors()[1]);
    assert_eq!(ragged.title, "quark");
    assert_eq!(ragged.title_color, SplashColor::Yellow);
    ragged.outline = vec![vec![true, true, true, true], vec![true]];
    ragged.contents = vec![vec!['x'], vec![]];
    ragged.sweep();
    for _ in 0..40 {
        ragged.update();
    }
    assert_eq!(ragged.state, State::Wait);
    assert_eq!(ragged.to_string(), "Q\n\n");

    let mut empty = SplashScreen::with(titles()[0], colors()[4]);
    empty.outline = vec![];
    empty.contents = vec![];
    empty.sweep();
    for _ in 0..30 {
        empty.update();
    }
    assert_eq!((empty.state, empty.tick), (State::Wait, 21));
    assert_eq!(empty.to_string(), "");
}
