use gemini::input::TextField;
use gemini::key::{KeyCode, KeyEvent};
use gemini::popup::{DeleteButton, DeletePopup, InputPopup, InputPopupHandleEvent};
use gemini::text::{chars_of, joined, normalize_response, same_text, string_of};

#[test]
fn doubled_line_breaks_collapse() {
    assert_eq!(normalize_response("a\n\nb"), "a\nb");
    assert_eq!(normalize_response("a\n\n\nb"), "a\n\nb");
    assert_eq!(normalize_response("a\n\n\n\nb"), "a\n\nb");
    assert_eq!(normalize_response("plain"), "plain");
    assert_eq!(normalize_response(""), "");
}

#[test]
fn one_closing_line_break_is_trimmed() {
    assert_eq!(normalize_response("Hi there\n"), "Hi there");
    assert_eq!(normalize_response("Hi there\n\n"), "Hi there");
    assert_eq!(normalize_response("Hi there\n\n\n"), "Hi there\n");
    assert_eq!(normalize_response("\n"), "");
}

#[test]
fn normalizing_agrees_with_replace_and_trim() {
    for text in ["", "\n", "\n\n", "a\nb\n", "x\n\ny\n\n\nz\n", "héllo\n\nwörld\n"] {
        let replaced = text.replace("\n\n", "\n");
        let expected = match replaced.strip_suffix('\n') {
            Some(rest) => rest.to_string(),
            None => replaced,
        };
        assert_eq!(normalize_response(text), expected);
    }
}

#[test]
fn strings_and_characters_convert_both_ways() {
    let chars = chars_of("héllo");
    assert_eq!(chars, vec!['h', 'é', 'l', 'l', 'o']);
    assert_eq!(string_of(&chars), "héllo");
    assert_eq!(string_of(&Vec::new()), "");
    assert_eq!(joined("ab", "cd"), "abcd");
    assert!(same_text("abc", "abc"));
    assert!(!same_text("abc", "abd"));
}

#[test]
fn text_field_types_at_the_cursor() {
    let mut field = TextField::new("ac".to_string());
    assert_eq!(field.cursor(), 2);
    field.move_cursor_left();
    field.enter_char('b');
    assert_eq!(field.get_content(), "abc");
    assert_eq!(field.cursor(), 2);
}

#[test]
fn text_field_deletes_before_and_at_the_cursor() {
    let mut field = TextField::new("abcd".to_string());
    field.delete_pre_char();
    assert_eq!(field.get_content(), "abc");
    field.home_of_cursor();
    field.delete_pre_char();
    assert_eq!(field.get_content(), "abc");
    field.delete_suf_char();
    assert_eq!(field.get_content(), "bc");
    field.end_of_cursor();
    field.delete_suf_char();
    assert_eq!(field.get_content(), "bc");
    assert_eq!(field.cursor(), 2);
}

#[test]
fn text_field_cursor_stays_in_the_line() {
    let mut field = TextField::new("ab".to_string());
    field.move_cursor_right();
    assert_eq!(field.cursor(), 2);
    field.home_of_cursor();
    field.move_cursor_left();
    assert_eq!(field.cursor(), 0);
    field.clear();
    assert!(field.is_empty());
    assert_eq!(field.cursor(), 0);
}

#[test]
fn text_field_ignores_keys_that_do_not_edit() {
    let mut field = TextField::new("ab".to_string());
    for code in [KeyCode::Tab, KeyCode::Enter, KeyCode::Esc, KeyCode::Up, KeyCode::F(2), KeyCode::Other] {
        field.edit(code);
    }
    assert_eq!(field.get_content(), "ab");
    field.edit(KeyCode::Char('c'));
    field.edit(KeyCode::Home);
    field.edit(KeyCode::Delete);
    assert_eq!(field.get_content(), "bc");
}

#[test]
fn delete_dialog_opens_on_cancel_and_tab_cycles() {
    let mut popup = DeletePopup::default();
    assert_eq!(popup.selected, DeleteButton::Cancel);
    assert!(!popup.press());
    popup.next_button();
    assert_eq!(popup.selected, DeleteButton::Confirm);
    assert!(popup.press());
    popup.next_button();
    assert_eq!(popup.selected, DeleteButton::Cancel);
}

#[test]
fn path_popup_commits_on_enter_and_cancels_on_esc() {
    let mut popup = InputPopup::new("/tmp/a".to_string(), 50, 3);
    assert_eq!(popup.handle_key(KeyEvent::press(KeyCode::Char('b'))), InputPopupHandleEvent::Nothing);
    assert_eq!(popup.get_content(), "/tmp/ab");
    assert_eq!(
        popup.handle_key(KeyEvent::press(KeyCode::Enter)),
        InputPopupHandleEvent::Save("/tmp/ab".to_string())
    );
    assert_eq!(popup.handle_key(KeyEvent::press(KeyCode::Esc)), InputPopupHandleEvent::Cancel);
    popup.set_size(80, 3);
    assert_eq!((popup.width, popup.height), (80, 3));
}
