use quietude::store::{
    chunk_file_name, chunk_path, chunk_path_in_dir, dialogue_path, save_path, world_file_name,
};
use quietude::text::TextStyle;
use quietude::types::{
    Color, Coords3D, Coords4D, FormattedString, FormattedText, GenericStyle, Message,
};
use quietude::ui::popup_message::{PopupMessage, PopupStyle};
use quietude::world::dialogue::DialogueStyle;
use quietude::world::log::{Log, LogStyle};

#[test]
fn formatted_text_new_keeps_text_and_style() {
    let text = FormattedText::new("abc", LogStyle::Emphasis(Color::Red));
    assert_eq!(text.s, "abc");
    assert_eq!(text.style, LogStyle::Emphasis(Color::Red));
    assert_eq!(text.clone(), text);
}

#[test]
fn formatted_text_truncate_keeps_short_texts() {
    let text = FormattedText::new("hello", LogStyle::Value);
    assert_eq!(text.truncate(9), text);
    assert_eq!(text.truncate(100), text);
    assert_eq!(text.truncate(8).s, "hello...");
    assert_eq!(text.truncate(7).s, "hello...");
    assert_eq!(text.truncate(6).s, "hell...");
    assert_eq!(text.truncate(3).s, "h...");
    assert_eq!(text.truncate(3).style, LogStyle::Value);
    let long = FormattedText::new("abcdefghijklmnopqrstuvwxyz", GenericStyle::Default);
    assert_eq!(long.truncate(16).s, "abcdefghijklmn...");
    let wide = FormattedText::new("äöüß", GenericStyle::Default);
    assert_eq!(wide.truncate(5).s, "äöü...");
}

#[test]
fn formatted_string_is_built_text_by_text() {
    let origin = Some(Coords3D(1, 2, 0));
    let mut string = FormattedString::from(&origin, FormattedText::new("b", LogStyle::Value));
    string.push(FormattedText::new("d", LogStyle::Attribute));
    string.insert(0, FormattedText::new("a", LogStyle::Default));
    string.insert(2, FormattedText::new("c", LogStyle::Default));
    string.insert(4, FormattedText::new("e", LogStyle::Default));
    assert_eq!(string.text(), "abcde");
    assert_eq!(string.origin(), &origin);
    assert_eq!(string.texts.len(), 5);
    assert_eq!(string.texts[1].style, LogStyle::Value);
    assert_eq!(string.texts[3].style, LogStyle::Attribute);
    assert_eq!(string.clone(), string);

    let raw: FormattedString<PopupStyle> = FormattedString::raw(&None, "plain");
    assert_eq!(raw.texts, vec![FormattedText::new("plain", PopupStyle::Default)]);
    assert_eq!(raw.origin(), &None);
    assert_eq!(raw.text(), "plain");
}

#[test]
fn formatted_string_truncate_cuts_at_the_width() {
    let mut string = FormattedString::from(&None, FormattedText::new("abcd", LogStyle::Value));
    string.push(FormattedText::new("efgh", LogStyle::Attribute));
    string.push(FormattedText::new("ijkl", LogStyle::Default));

    let whole = string.truncate(16);
    assert_eq!(whole, string);

    let cut = string.truncate(10);
    assert_eq!(cut.text(), "abcdefgh...");
    assert_eq!(cut.texts.len(), 3);
    assert_eq!(cut.texts[1], FormattedText::new("efgh", LogStyle::Attribute));
    assert_eq!(cut.texts[2], FormattedText::new("...", LogStyle::Default));

    let mid = string.truncate(9);
    assert_eq!(mid.text(), "abcdefg...");
    assert_eq!(mid.texts[1], FormattedText::new("efg", LogStyle::Attribute));

    let edge = string.truncate(7);
    assert_eq!(edge.text(), "abcd...");
    assert_eq!(
        edge.texts,
        vec![
            FormattedText::new("abcd", LogStyle::Value),
            FormattedText::new("...", LogStyle::Default)
        ]
    );

    let tiny = string.truncate(3);
    assert_eq!(tiny.text(), "a...");

    let with_origin =
        FormattedString::from(&Some(Coords3D(0, 1, 0)), FormattedText::new("x", LogStyle::Value));
    assert_eq!(with_origin.truncate(3).origin(), &Some(Coords3D(0, 1, 0)));

    let empty: FormattedString<LogStyle> = FormattedString { texts: vec![], origin: None };
    assert_eq!(empty.truncate(3), empty);
    assert_eq!(empty.text(), "");
}

#[test]
fn plain_styles_are_the_defaults() {
    assert_eq!(LogStyle::plain(), LogStyle::Default);
    assert_eq!(PopupStyle::plain(), PopupStyle::Default);
    assert_eq!(DialogueStyle::plain(), DialogueStyle::Default);
    assert_eq!(GenericStyle::plain(), GenericStyle::Default);
    assert_eq!(LogStyle::default(), LogStyle::Default);
    assert_eq!(PopupStyle::default(), PopupStyle::Default);
    assert_eq!(DialogueStyle::default(), DialogueStyle::Default);
    assert_eq!(GenericStyle::default(), GenericStyle::Default);
    assert_eq!(Color::default(), Color::White);
}

#[test]
fn log_appends_in_order() {
    let mut log = Log::new();
    assert!(log.contents.is_empty());
    log.print_formatted_string(FormattedString::raw(&None, "first"));
    log.print_formatted_string(FormattedString::raw(&None, "second"));
    log.print_formatted_string(FormattedString::raw(&None, "first"));
    let texts: Vec<String> = log.contents.iter().map(|s| s.text()).collect();
    assert_eq!(texts, vec!["first", "second", "first"]);
    assert_eq!(Log::default(), Log::new());
}

#[test]
fn messages_carry_their_strings() {
    let log = Message::Log(FormattedString::raw(&None, "seen"));
    let popup = Message::Popup(FormattedString::raw(&None, "seen"));
    assert_ne!(log, popup);
    assert_eq!(log, Message::Log(FormattedString::raw(&None, "seen")));
    let notice = PopupMessage::Notice(FormattedString::raw(&None, "fine"));
    assert_ne!(notice, PopupMessage::Failure(FormattedString::raw(&None, "fine")));
    assert_ne!(notice, PopupMessage::SaveNameDialog);
}

#[test]
fn paths_are_put_together_from_the_parts() {
    assert_eq!(chunk_path(Coords4D(0, 0, 0, 0)), "world/0,0,0,0.json");
    assert_eq!(chunk_path(Coords4D(-1, 2, -3, 4)), "world/-1,2,-3,4.json");
    assert_eq!(
        chunk_path_in_dir("project/", Coords4D(1, 0, 0, 0)),
        "project/world/1,0,0,0.json"
    );
    assert_eq!(world_file_name(), "world.json");
    assert_eq!(chunk_file_name(Coords4D(0, 0, 0, 0)), "0,0,0,0.json");
    assert_eq!(save_path("autumn"), "autumn.json");
    assert_eq!(dialogue_path(42), "42.json");
    assert_eq!(dialogue_path(0), "0.json");
}
