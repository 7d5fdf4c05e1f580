use pman::keys::Key;
use pman::popups::{BinaryChoice, InputWindow, MessageWindow};
use pman::ui::{Completable, InputMode, InputReceptor, InputReturn};

#[test]
fn message_window_starts_open_and_unacknowledged() {
    let popup = MessageWindow::new(String::from("disk full"));
    assert!(popup.is_active());
    assert!(!popup.is_completed());
    assert_eq!(popup.description(), "disk full");
}

#[test]
fn message_window_default_is_closed() {
    let popup = MessageWindow::default();
    assert!(!popup.is_active());
    assert!(!popup.is_completed());
    assert_eq!(popup.description(), "");
}

#[test]
fn message_window_completes_on_enter_only() {
    let mut popup = MessageWindow::new(String::from("note"));
    for key in [Key::Esc, Key::Char('x'), Key::Left, Key::Backspace, Key::Tab, Key::Other] {
        assert!(popup.handle_input_key(key));
        assert!(!popup.is_completed());
        assert!(popup.is_active());
    }
    assert!(popup.handle_input_key(Key::Enter));
    assert!(popup.is_completed());
    assert!(popup.is_active());
}

#[test]
fn message_window_flags_are_independent() {
    let mut popup = MessageWindow::new(String::from("note"));
    popup.set_active(false);
    assert!(!popup.is_active());
    assert!(!popup.is_completed());
    popup.handle_input_key(Key::Enter);
    assert!(popup.is_completed());
    assert!(!popup.is_active());
    popup.set_active(true);
    assert!(popup.is_completed());
    popup.reset_completion();
    assert!(!popup.is_completed());
    assert!(popup.is_active());
}

#[test]
fn binary_choice_starts_on_no() {
    let popup = BinaryChoice::new(String::from("Delete project: a"));
    assert!(popup.is_active());
    assert!(!popup.is_completed());
    assert!(!popup.get_choice());
    assert_eq!(popup.choice_message(), "Delete project: a");
}

#[test]
fn binary_choice_left_is_yes_right_is_no() {
    let mut popup = BinaryChoice::new(String::from("sure?"));
    popup.handle_input_key(Key::Left);
    assert!(popup.get_choice());
    popup.handle_input_key(Key::Left);
    assert!(popup.get_choice());
    popup.handle_input_key(Key::Right);
    assert!(!popup.get_choice());
    assert!(!popup.is_completed());
    popup.handle_input_key(Key::Left);
    popup.handle_input_key(Key::Enter);
    assert!(popup.is_completed());
    assert!(popup.get_choice());
}

#[test]
fn binary_choice_has_no_cancel_key() {
    let mut popup = BinaryChoice::new(String::from("sure?"));
    popup.handle_input_key(Key::Esc);
    assert!(popup.is_active());
    assert!(!popup.is_completed());
    assert!(!popup.get_choice());
}

#[test]
fn binary_choice_default_is_closed() {
    let popup = BinaryChoice::default();
    assert!(!popup.is_active());
    assert!(!popup.is_completed());
    assert!(!popup.get_choice());
}

#[test]
fn input_window_type_erase_confirm() {
    let mut popup = InputWindow::new(String::from("Insert project name"));
    popup.handle_input_key(Key::Char('a'));
    popup.handle_input_key(Key::Char('b'));
    popup.handle_input_key(Key::Char('c'));
    assert_eq!(popup.get_input_data(), "abc");
    popup.handle_input_key(Key::Backspace);
    popup.handle_input_key(Key::Enter);
    assert!(popup.is_completed());
    assert!(popup.is_active());
    assert_eq!(popup.get_input_data(), "ab");
    popup.reset_completion();
    popup.set_active(false);
    assert!(!popup.is_completed());
    assert!(!popup.is_active());
    assert_eq!(popup.get_input_data(), "ab");
}

#[test]
fn input_window_retire_closes_and_keeps_text() {
    let mut popup = InputWindow::new(String::from("prompt"));
    popup.handle_input_key(Key::Char('z'));
    popup.handle_input_key(Key::Enter);
    popup.retire();
    assert!(!popup.is_completed());
    assert!(!popup.is_active());
    assert_eq!(popup.get_input_data(), "z");
    assert_eq!(popup.description(), "prompt");
}

#[test]
fn input_window_backspace_on_empty_text_does_nothing() {
    let mut popup = InputWindow::new(String::from("prompt"));
    popup.handle_input_key(Key::Backspace);
    assert_eq!(popup.get_input_data(), "");
    assert!(popup.is_active());
    assert!(!popup.is_completed());
}

#[test]
fn input_window_escape_closes_without_completing() {
    let mut popup = InputWindow::new(String::from("prompt"));
    popup.handle_input_key(Key::Char('q'));
    popup.handle_input_key(Key::Esc);
    assert!(!popup.is_active());
    assert!(!popup.is_completed());
    assert_eq!(popup.get_input_data(), "q");
}

#[test]
fn input_window_accepts_empty_text() {
    let mut popup = InputWindow::new(String::from("prompt"));
    popup.handle_input_key(Key::Enter);
    assert!(popup.is_completed());
    assert_eq!(popup.get_input_data(), "");
}

#[test]
fn input_window_takes_non_ascii_characters() {
    let mut popup = InputWindow::new(String::from("prompt"));
    popup.handle_input_key(Key::Char('é'));
    popup.handle_input_key(Key::Char('ß'));
    popup.handle_input_key(Key::Backspace);
    assert_eq!(popup.get_input_data(), "é");
}

#[test]
fn input_window_set_input_string_replaces_text() {
    let mut popup = InputWindow::new(String::from("Edit project name"));
    popup.handle_input_key(Key::Char('x'));
    popup.set_input_string(String::from("old name"));
    assert_eq!(popup.get_input_data(), "old name");
    assert!(popup.is_active());
    popup.handle_input_key(Key::Char('!'));
    assert_eq!(popup.get_input_data(), "old name!");
}

#[test]
fn input_window_ignores_other_keys() {
    let mut popup = InputWindow::new(String::from("prompt"));
    for key in [Key::Left, Key::Right, Key::Up, Key::Down, Key::Tab, Key::Other] {
        assert!(popup.handle_input_key(key));
    }
    assert_eq!(popup.get_input_data(), "");
    assert!(popup.is_active());
    assert!(!popup.is_completed());
}

#[test]
fn popups_describe_their_controls() {
    assert_eq!(
        MessageWindow::default().get_controls_description(),
        "Press enter to continue"
    );
    assert_eq!(
        BinaryChoice::default().get_controls_description(),
        "<-: Go Left  |  ->: Go Right  |  Enter: Confirm Selection "
    );
    assert_eq!(
        InputWindow::default().get_controls_description(),
        "esc - Cancel | Enter - Confirm entry"
    );
    assert_eq!(MessageWindow::default().get_input_mode(), InputMode::CommandMode);
    assert_eq!(BinaryChoice::default().get_input_mode(), InputMode::CommandMode);
    assert_eq!(InputWindow::default().get_input_mode(), InputMode::CommandMode);
}
