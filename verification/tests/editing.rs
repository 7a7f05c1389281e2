use cc_switch_tui::app_type::AppType;
use cc_switch_tui::chars::is_whitespace;
use cc_switch_tui::key::{KeyCode, KeyEvent, KeyModifiers};
use cc_switch_tui::text_edit::{
    char_kind, passive_text_contains, passive_text_is_blank, passive_trimmed_eq_ignore_ascii_case,
    trim, CharKind, TextEditCommand, TextEditSession, TextInput, TextInputPolicy,
};

/// The name that the first application is stored under.
fn claude() -> String {
    format!("{:?}", AppType::Claude).to_lowercase()
}

fn ctrl(code: KeyCode) -> KeyEvent {
    KeyEvent::new(code, KeyModifiers::control())
}

fn alt(code: KeyCode) -> KeyEvent {
    KeyEvent::new(code, KeyModifiers::alt())
}

fn plain(code: KeyCode) -> KeyEvent {
    KeyEvent::new(code, KeyModifiers::none())
}

fn input(value: &str) -> TextInput {
    TextInput::new(value.to_string())
}

#[test]
fn readline_line_movement_and_deletion_work() {
    let mut input = input("alpha beta");
    input.apply_key(ctrl(KeyCode::Char('a')));
    assert_eq!(input.cursor, 0);

    input.apply_key(ctrl(KeyCode::Char('e')));
    assert_eq!(input.cursor, "alpha beta".len());

    input.apply_key(ctrl(KeyCode::Char('w')));
    assert_eq!(input.value, "alpha ");
    assert_eq!(input.cursor, "alpha ".len());

    input.apply_key(ctrl(KeyCode::Char('u')));
    assert_eq!(input.value, "");
    assert_eq!(input.cursor, 0);
}

#[test]
fn word_movement_handles_punctuation_and_unicode() {
    let mut input = input("你好 model-name 🚀");

    input.apply_key(alt(KeyCode::Char('b')));
    assert_eq!(input.cursor, "你好 model-name ".len());

    input.apply_key(alt(KeyCode::Char('b')));
    assert_eq!(input.cursor, "你好 model-".len());

    input.apply_key(alt(KeyCode::Char('f')));
    assert_eq!(input.cursor, "你好 model-name".len());
}

#[test]
fn max_chars_policy_handles_insert_without_changing() {
    let mut input = input("abc");
    let edit = input
        .apply_key_with_policy(
            plain(KeyCode::Char('d')),
            TextInputPolicy::<fn(char) -> Option<char>> {
                max_chars: Some(3),
                sanitize: None,
            },
        )
        .expect("printable input should be handled");

    assert!(!edit.changed);
    assert_eq!(input.value, "abc");
}

#[test]
fn apply_command_clamps_external_cursor_state() {
    let mut input = TextInput {
        value: "abc".to_string(),
        cursor: 99,
    };

    input.apply_key(ctrl(KeyCode::Char('w')));

    assert_eq!(input.value, "");
    assert_eq!(input.cursor, 0);
}

#[test]
fn edits_clamp_a_cursor_inside_a_multibyte_character() {
    let mut input = TextInput {
        value: "你a".to_string(),
        cursor: 1,
    };

    assert!(!input.delete_word_backward());
    assert_eq!(input.value, "你a");
    assert_eq!(input.cursor, 0);

    assert!(input.move_right());
    assert_eq!(input.cursor, "你".len());
    assert!(input.backspace());
    assert_eq!(input.value, "a");
    assert_eq!(input.cursor, 0);
}

#[test]
fn a_policy_replaces_and_rejects_characters() {
    let mut input = input("");
    let digits = |c: char| match c {
        '0'..='9' => Some(c),
        'o' => Some('0'),
        _ => None,
    };
    for c in ['1', 'o', 'x'] {
        let _ = input.apply_key_with_policy(
            plain(KeyCode::Char(c)),
            TextInputPolicy {
                max_chars: None,
                sanitize: Some(digits),
            },
        );
    }
    assert_eq!(input.value, "10");
}

#[test]
fn typing_and_backspace_undo_each_other() {
    let mut input = input("ab");
    assert!(input.move_left());
    assert!(input.insert_char('你'));
    assert_eq!(input.value, "a你b");
    assert!(input.backspace());
    assert_eq!(input.value, "ab");
    assert_eq!(input.cursor, 1);
}

#[test]
fn backspace_is_a_step_left_and_delete() {
    let mut one = input("xyz");
    let mut other = input("xyz");
    assert!(one.backspace());
    assert!(other.move_left());
    assert!(other.delete());
    assert_eq!(one.value, other.value);
    assert_eq!(one.cursor, other.cursor);
}

#[test]
fn the_ends_of_the_text_stop_the_cursor() {
    let mut input = input("a");
    assert!(!input.move_right());
    assert!(!input.delete());
    assert!(input.move_home());
    assert!(!input.move_home());
    assert!(!input.move_left());
    assert!(!input.backspace());
    assert!(input.move_end());
    input.set("long".to_string());
    assert_eq!(input.cursor, 4);
}

#[test]
fn deletions_reach_to_the_ends() {
    let mut edited = input("one two");
    edited.cursor = 3;
    assert!(edited.delete_to_line_end());
    assert_eq!(edited.value, "one");
    edited.cursor = 1;
    assert!(edited.delete_to_line_start());
    assert_eq!(edited.value, "ne");
    assert_eq!(edited.cursor, 0);
}

#[test]
fn control_characters_are_not_typed() {
    assert_eq!(
        TextEditCommand::from_key(plain(KeyCode::Char('\u{7}'))),
        None
    );
    assert_eq!(
        TextEditCommand::from_key(plain(KeyCode::Char('q'))),
        Some(TextEditCommand::Insert('q'))
    );
    assert_eq!(TextEditCommand::from_key(plain(KeyCode::Enter)), None);
}

#[test]
fn letters_and_blanks_are_told_apart_beyond_ascii() {
    assert_eq!(char_kind('你'), CharKind::Word);
    assert_eq!(char_kind('\u{3000}'), CharKind::Whitespace);
    assert_eq!(char_kind('-'), CharKind::Other);
}

#[test]
fn blank_texts_are_recognised() {
    assert!(input(" \t\u{3000}").is_blank());
    assert!(!input(" a ").is_blank());
    assert!(passive_text_is_blank(" \t"));
    assert!(!passive_text_is_blank("x"));
    assert_eq!(trim("  a b \n"), "a b");
}

#[test]
fn passive_texts_are_compared_loosely() {
    assert!(passive_text_contains(&format!("{}-opus", claude()), "opus"));
    assert!(!passive_text_contains(&format!("{}-opus", claude()), "sonnet"));
    assert!(passive_trimmed_eq_ignore_ascii_case("  OpenAI ", "openai"));
    assert!(!passive_trimmed_eq_ignore_ascii_case("OpenAI!", "openai"));
}

#[test]
fn a_session_gives_back_what_it_was_opened_with() {
    let session = TextEditSession::new(7u8, input("before"), Some("wrong".to_string()));
    assert_eq!(session.target(), 7);
    let (target, original, error) = session.into_parts();
    assert_eq!(target, 7);
    assert_eq!(original.value, "before");
    assert_eq!(error.as_deref(), Some("wrong"));
}

#[test]
fn an_input_starts_empty() {
    let input = TextInput::default();
    assert_eq!(input.value, "");
    assert_eq!(input.cursor, 0);
}

#[test]
fn white_space_is_what_unicode_says() {
    for c in '\0'..=char::MAX {
        assert_eq!(is_whitespace(c), c.is_whitespace(), "{:x}", u32::from(c));
    }
}
