use chart_input::chars::{classify_char, is_control, is_whitespace, CharClass};
use chart_input::keys::KeyPress;
use chart_input::text_edit::{edit_token_char, SearchInput, TextEditing};

fn field(text: &str, cursor: usize, anchor: Option<usize>) -> TextEditing {
    let mut e = TextEditing::new(text);
    e.cursor = cursor;
    e.selection_start = anchor;
    e
}

fn text_of(e: &TextEditing) -> String {
    e.text.iter().collect()
}

#[test]
fn new_field_puts_cursor_at_end() {
    let e = TextEditing::new("héllo");
    assert_eq!(e.cursor, 5);
    assert_eq!(e.selection_start, None);
    assert_eq!(e.text_string(), "héllo");
}

#[test]
fn delete_removes_char_at_cursor() {
    let mut e = field("abc", 1, None);
    assert!(e.apply_key(KeyPress::Delete));
    assert_eq!(text_of(&e), "ac");
    assert_eq!(e.cursor, 1);
}

#[test]
fn delete_at_end_changes_nothing() {
    let mut e = field("abc", 3, None);
    assert!(e.apply_key(KeyPress::Delete));
    assert_eq!(text_of(&e), "abc");
    assert_eq!(e.cursor, 3);
}

#[test]
fn delete_removes_selection() {
    let mut e = field("abcdef", 4, Some(1));
    assert!(e.apply_key(KeyPress::Delete));
    assert_eq!(text_of(&e), "aef");
    assert_eq!(e.cursor, 1);
    assert_eq!(e.selection_start, None);
}

#[test]
fn arrows_collapse_selection_to_its_edges() {
    let mut e = field("abcdef", 4, Some(1));
    e.apply_key(KeyPress::ArrowLeft);
    assert_eq!((e.cursor, e.selection_start), (1, None));
    let mut e = field("abcdef", 1, Some(4));
    e.apply_key(KeyPress::ArrowRight);
    assert_eq!((e.cursor, e.selection_start), (4, None));
}

#[test]
fn arrows_move_and_stop_at_edges() {
    let mut e = field("ab", 0, None);
    e.apply_key(KeyPress::ArrowLeft);
    assert_eq!(e.cursor, 0);
    e.apply_key(KeyPress::ArrowRight);
    e.apply_key(KeyPress::ArrowRight);
    e.apply_key(KeyPress::ArrowRight);
    assert_eq!(e.cursor, 2);
}

#[test]
fn law_home_end_positions() {
    let mut e = field("hello", 2, Some(4));
    e.apply_key(KeyPress::End);
    assert_eq!((e.cursor, e.selection_start), (5, None));
    e.apply_key(KeyPress::Home);
    assert_eq!((e.cursor, e.selection_start), (0, None));
}

#[test]
fn law_select_all_then_delete_clears() {
    let mut e = field("some text", 3, None);
    e.apply_key(KeyPress::SelectAll);
    assert_eq!((e.cursor, e.selection_start), (9, Some(0)));
    e.apply_key(KeyPress::Delete);
    assert_eq!(text_of(&e), "");
    assert_eq!(e.cursor, 0);
}

#[test]
fn law_shift_right_then_left_restores() {
    let mut e = field("abc", 1, None);
    e.apply_key(KeyPress::ShiftRight);
    assert_eq!((e.cursor, e.selection_start), (2, Some(1)));
    e.apply_key(KeyPress::ShiftLeft);
    assert_eq!((e.cursor, e.selection_start), (1, None));
    assert_eq!(text_of(&e), "abc");
}

#[test]
fn shift_home_and_end_extend_selection() {
    let mut e = field("abcd", 2, None);
    e.apply_key(KeyPress::ShiftHome);
    assert_eq!((e.cursor, e.selection_start), (0, Some(2)));
    e.apply_key(KeyPress::ShiftEnd);
    assert_eq!((e.cursor, e.selection_start), (4, Some(2)));
    assert_eq!(e.selected_text(), Some("cd".to_string()));
}

#[test]
fn law_paste_replaces_selection_with_printable_chars() {
    let mut e = field("hello world", 11, Some(6));
    assert!(e.apply_key(KeyPress::Paste("there\n\t!".to_string())));
    assert_eq!(text_of(&e), "hello there!");
    assert_eq!(e.cursor, 12);
}

#[test]
fn paste_inserts_at_cursor() {
    let mut e = field("ad", 1, None);
    e.apply_key(KeyPress::Paste("bc".to_string()));
    assert_eq!(text_of(&e), "abcd");
    assert_eq!(e.cursor, 3);
}

#[test]
fn law_unconsumed_keys_leave_field_unchanged() {
    for key in [
        KeyPress::Copy,
        KeyPress::Undo,
        KeyPress::Redo,
        KeyPress::ArrowUp,
        KeyPress::ArrowDown,
        KeyPress::Enter,
        KeyPress::Escape,
        KeyPress::Tab,
        KeyPress::Backspace,
        KeyPress::CtrlC,
        KeyPress::PageUp,
        KeyPress::PageDown,
    ] {
        let mut e = field("abc", 2, Some(1));
        assert!(!e.apply_key(key));
        assert_eq!(text_of(&e), "abc");
        assert_eq!((e.cursor, e.selection_start), (2, Some(1)));
    }
}

#[test]
fn law_select_all_selects_everything() {
    let mut e = field("copy me", 0, None);
    e.apply_key(KeyPress::SelectAll);
    assert_eq!(e.selected_text(), Some("copy me".to_string()));
}

#[test]
fn no_selection_copies_nothing() {
    let e = field("abc", 1, Some(1));
    assert!(!e.has_selection());
    assert_eq!(e.selection_range(), None);
    assert_eq!(e.selected_text(), None);
}

#[test]
fn selection_range_is_ordered() {
    assert_eq!(field("abcdef", 1, Some(5)).selection_range(), Some((1, 5)));
    assert_eq!(field("abcdef", 5, Some(1)).selection_range(), Some((1, 5)));
}

#[test]
fn backspace_deletes_before_cursor() {
    let mut e = field("abc", 2, None);
    e.backspace();
    assert_eq!(text_of(&e), "ac");
    assert_eq!(e.cursor, 1);
    let mut e = field("abc", 0, None);
    e.backspace();
    assert_eq!(text_of(&e), "abc");
}

#[test]
fn law_type_then_backspace_restores() {
    let mut e = field("abc", 1, None);
    e.type_char('x');
    assert_eq!(text_of(&e), "axbc");
    assert_eq!(e.cursor, 2);
    e.backspace();
    assert_eq!(text_of(&e), "abc");
    assert_eq!(e.cursor, 1);
}

#[test]
fn typing_replaces_selection() {
    let mut e = field("abcdef", 1, Some(4));
    e.type_char('Z');
    assert_eq!(text_of(&e), "aZef");
    assert_eq!(e.cursor, 2);
}

#[test]
fn edit_char_classifies_and_edits() {
    let mut e = field("ab", 2, None);
    assert_eq!(e.edit_char('c'), CharClass::Printable);
    assert_eq!(text_of(&e), "abc");
    assert_eq!(e.edit_char('\u{8}'), CharClass::Backspace);
    assert_eq!(text_of(&e), "ab");
    assert_eq!(e.edit_char('\n'), CharClass::Enter);
    assert_eq!(e.edit_char('\t'), CharClass::Tab);
    assert_eq!(e.edit_char('\u{1b}'), CharClass::Escape);
    assert_eq!(e.edit_char('\u{1}'), CharClass::Control);
    assert_eq!(text_of(&e), "ab");
}

#[test]
fn cursor_past_end_inserts_at_end() {
    let mut e = field("ab", 7, None);
    e.type_char('c');
    assert_eq!(text_of(&e), "abc");
    assert_eq!(e.cursor, 8);
}

#[test]
fn char_classes() {
    assert!(is_control('\u{0}'));
    assert!(is_control('\u{7f}'));
    assert!(is_control('\u{9f}'));
    assert!(!is_control('\u{a0}'));
    assert!(!is_control('a'));
    assert!(is_whitespace(' '));
    assert!(is_whitespace('\u{3000}'));
    assert!(!is_whitespace('x'));
    assert_eq!(classify_char('\r'), CharClass::Enter);
}

#[test]
fn forward_delete_keeps_cursor_and_ignores_selection() {
    let mut e = field("abcd", 1, Some(3));
    e.delete_forward_char();
    assert_eq!(text_of(&e), "acd");
    assert_eq!(e.cursor, 1);
    assert_eq!(e.selection_start, Some(3));
    let mut e = field("ab", 2, None);
    e.delete_forward_char();
    assert_eq!(text_of(&e), "ab");
    let mut e = field("ab", 7, None);
    e.delete_forward_char();
    assert_eq!(text_of(&e), "ab");
}

#[test]
fn token_buffer_edits() {
    let mut t = String::from("12:ab");
    assert!(edit_token_char(&mut t, 'c'));
    assert_eq!(t, "12:abc");
    assert!(edit_token_char(&mut t, '\u{8}'));
    assert!(edit_token_char(&mut t, '\u{8}'));
    assert_eq!(t, "12:a");
    assert!(edit_token_char(&mut t, '\t'));
    assert_eq!(t, "12:a");
    assert!(!edit_token_char(&mut t, '\r'));
    assert!(!edit_token_char(&mut t, '\n'));
    assert!(!edit_token_char(&mut t, '\u{1b}'));
    assert_eq!(t, "12:a");
    let mut e = String::new();
    assert!(edit_token_char(&mut e, '\u{8}'));
    assert_eq!(e, "");
    let mut w = String::from("é");
    assert!(edit_token_char(&mut w, '\u{8}'));
    assert_eq!(w, "");
}

#[test]
fn law_paste_types_each_character() {
    for (text, cursor, anchor) in [("hello", 2usize, None), ("hello", 1, Some(4)), ("", 0, None)] {
        let mut pasted = field(text, cursor, anchor);
        pasted.apply_key(KeyPress::Paste("a\tb\u{7}c".to_string()));
        let mut typed = field(text, cursor, anchor);
        for c in ['a', 'b', 'c'] {
            typed.type_char(c);
        }
        assert_eq!(text_of(&pasted), text_of(&typed));
        assert_eq!(pasted.cursor, typed.cursor);
        assert_eq!(pasted.selection_start, typed.selection_start);
    }
}

#[test]
fn stale_anchor_makes_typing_differ_from_paste() {
    let mut pasted = field("x", 1, Some(1));
    pasted.apply_key(KeyPress::Paste("ab".to_string()));
    assert_eq!(text_of(&pasted), "xab");
    let mut typed = field("x", 1, Some(1));
    typed.type_char('a');
    typed.type_char('b');
    assert_eq!(text_of(&typed), "xb");
}

#[test]
fn search_query_follows_typed_text() {
    let mut s = SearchInput { editing: TextEditing::new("bt"), query: "bt".to_string() };
    assert!(s.type_char_into('c'));
    assert_eq!(s.query, "btc");
    assert!(s.type_char_into('\u{8}'));
    assert_eq!(s.query, "bt");
    assert_eq!(s.editing.text_string(), "bt");
    // Enter and other control characters change nothing and keep the scroll.
    assert!(!s.type_char_into('\r'));
    assert!(!s.type_char_into('\u{1b}'));
    assert_eq!(s.query, "bt");
}

#[test]
fn search_typing_replaces_selection() {
    let mut e = TextEditing::new("ethusdt");
    e.selection_start = Some(0);
    e.cursor = 3;
    let mut s = SearchInput { editing: e, query: "ethusdt".to_string() };
    assert!(s.type_char_into('s'));
    assert_eq!(s.query, "susdt");
    assert_eq!(s.editing.cursor, 1);
}

#[test]
fn search_query_follows_key_and_paste() {
    let mut e = TextEditing::new("btusdt");
    e.cursor = 2;
    let mut s = SearchInput { editing: e, query: "stale".to_string() };
    assert!(s.apply_key_into(KeyPress::Paste("c\n".to_string())));
    assert_eq!(s.editing.text_string(), "btcusdt");
    assert_eq!(s.editing.cursor, 3);
    assert_eq!(s.query, "btcusdt");
    let mut t = SearchInput { editing: TextEditing::new("eth"), query: "old".to_string() };
    t.apply_key_into(KeyPress::Home);
    assert_eq!(t.query, "eth");
    assert_eq!(t.editing.cursor, 0);
}
