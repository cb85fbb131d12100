use chart_input::hex_color::hex_to_rgba_bytes;
use chart_input::text_edit::TextEditing;
use chart_input::profile::{
    confirm_passphrase_submit, entered_name, name_command, passphrase_submit, recovery_submit,
    ConfirmOutcome, PassphraseInput, PassphrasePage, ProfileInputs, RECOVERY_KEY_MIN_BYTES,
};
use chart_input::watchlist::{modal_reorder_move, reorder_move, ColumnFlags};

fn rgba(s: &str) -> [u8; 4] {
    hex_to_rgba_bytes(s.as_bytes())
}

#[test]
fn hex_six_digits_is_opaque() {
    assert_eq!(rgba("#ff8000"), [255, 128, 0, 255]);
    assert_eq!(rgba("FF8000"), [255, 128, 0, 255]);
    assert_eq!(rgba("#1a2B3c"), [26, 43, 60, 255]);
}

#[test]
fn hex_eight_digits_carries_alpha() {
    assert_eq!(rgba("#11223344"), [17, 34, 51, 68]);
    assert_eq!(rgba("#00000000"), [0, 0, 0, 0]);
}

#[test]
fn hex_leading_hashes_are_all_stripped() {
    assert_eq!(rgba("###0a0b0c"), [10, 11, 12, 255]);
}

#[test]
fn hex_too_short_is_opaque_black() {
    assert_eq!(rgba(""), [0, 0, 0, 255]);
    assert_eq!(rgba("#fff"), [0, 0, 0, 255]);
    assert_eq!(rgba("#12345"), [0, 0, 0, 255]);
}

#[test]
fn hex_parse_failure_is_opaque_black() {
    assert_eq!(rgba("#ZZFFFF"), [0, 0, 0, 255]);
    assert_eq!(rgba("#zz8000"), [0, 0, 0, 255]);
    assert_eq!(rgba("#102030zz"), [0, 0, 0, 255]);
    assert_eq!(rgba("-f0000"), [0, 0, 0, 255]);
    // A channel that would cut through a multi-byte character fails too.
    assert_eq!(rgba("#a\u{e9}0000"), [0, 0, 0, 255]);
    assert_eq!(rgba("#00000\u{e9}"), [0, 0, 0, 255]);
    // Seven digits: there is no alpha pair, so alpha stays opaque.
    assert_eq!(rgba("#1020304"), [16, 32, 48, 255]);
}

#[test]
fn hex_plus_sign_is_accepted_like_from_str_radix() {
    assert_eq!(rgba("+f+a+1"), [15, 10, 1, 255]);
    assert_eq!(u8::from_str_radix("+f", 16), Ok(15));
}

#[test]
fn passphrase_enter_builds_setup_command() {
    assert_eq!(passphrase_submit("  secret pass \t", true), Some("e2e_setup:secret pass".to_string()));
    assert_eq!(passphrase_submit("secret", false), None);
    assert_eq!(passphrase_submit("   ", true), None);
    assert_eq!(passphrase_submit("", true), None);
}

#[test]
fn recovery_key_needs_minimum_length() {
    assert_eq!(RECOVERY_KEY_MIN_BYTES, 40);
    let short = "a".repeat(39);
    let exact = "b".repeat(40);
    assert_eq!(recovery_submit(&short), None);
    assert_eq!(recovery_submit(&exact), Some(format!("recovery_unlock:{}", exact)));
    // Bytes, not characters, are counted: 20 two-byte characters suffice.
    let wide = "é".repeat(20);
    assert_eq!(recovery_submit(&wide), Some(format!("recovery_unlock:{}", wide)));
}

#[test]
fn confirm_passphrase_outcomes() {
    assert_eq!(
        confirm_passphrase_submit("abcdefgh", "abcdefgh", 8),
        ConfirmOutcome::Submit("set_new_passphrase:abcdefgh".to_string())
    );
    assert_eq!(confirm_passphrase_submit("abcdefgh", "abcdefgi", 8), ConfirmOutcome::Mismatch);
    assert_eq!(confirm_passphrase_submit("abc", "abd", 8), ConfirmOutcome::Mismatch);
    assert_eq!(confirm_passphrase_submit("abc", "abc", 8), ConfirmOutcome::TooShort);
    assert_eq!(confirm_passphrase_submit("", "", 0), ConfirmOutcome::Submit("set_new_passphrase:".to_string()));
}

#[test]
fn entered_name_trims_and_rejects_blank() {
    assert_eq!(entered_name("  My Preset  "), Some("My Preset".to_string()));
    assert_eq!(entered_name("\u{3000}名前\n"), Some("名前".to_string()));
    assert_eq!(entered_name(" \t\n "), None);
    assert_eq!(entered_name(""), None);
}

#[test]
fn name_command_prefixes_verb() {
    assert_eq!(name_command("profile_rename", " work "), Some("profile_rename:work".to_string()));
    assert_eq!(name_command("profile_create", "Alice B"), Some("profile_create:Alice B".to_string()));
    assert_eq!(name_command("profile_create", "   "), None);
}

fn flags(bits: [bool; 7]) -> ColumnFlags {
    ColumnFlags {
        show_exchange: bits[0],
        show_account_type: bits[1],
        show_last_price: bits[2],
        show_change_pct: bits[3],
        show_change_abs: bits[4],
        show_high_low: bits[5],
        show_volume: bits[6],
    }
}

#[test]
fn separator_count_counts_high_low_twice() {
    assert_eq!(flags([false; 7]).separator_count(), 0);
    assert_eq!(flags([true; 7]).separator_count(), 8);
    assert_eq!(flags([false, false, false, false, false, true, false]).separator_count(), 2);
    assert_eq!(flags([true, false, true, false, false, false, true]).separator_count(), 3);
}

#[test]
fn custom_offsets_need_one_per_separator() {
    let f = flags([true, false, true, false, false, true, false]);
    assert_eq!(f.separator_count(), 4);
    assert!(f.uses_custom_offsets(Some(4)));
    assert!(!f.uses_custom_offsets(Some(3)));
    assert!(!f.uses_custom_offsets(None));
}

#[test]
fn reorder_move_clamps_to_last_row() {
    assert_eq!(reorder_move(1, Some(3), 5), Some((1, 3)));
    assert_eq!(reorder_move(1, Some(9), 5), Some((1, 4)));
    assert_eq!(reorder_move(2, Some(2), 5), None);
    assert_eq!(reorder_move(2, None, 5), None);
    assert_eq!(reorder_move(4, Some(100), 5), None);
    assert_eq!(reorder_move(0, Some(3), 0), None);
}

#[test]
fn reorder_target_is_an_existing_row() {
    for len in 1..6usize {
        for drag in 0..len {
            for drop in [None, Some(0), Some(len - 1), Some(len), Some(usize::MAX)] {
                if let Some((from, to)) = reorder_move(drag, drop, len) {
                    assert_eq!(from, drag);
                    assert!(to < len);
                }
            }
        }
    }
}

#[test]
fn modal_reorder_ignores_drop_on_itself() {
    assert_eq!(reorder_move(5, Some(5), 3), Some((5, 2)));
    assert_eq!(modal_reorder_move(5, Some(5), 3), None);
    assert_eq!(modal_reorder_move(5, None, 3), None);
    assert_eq!(modal_reorder_move(0, Some(9), 3), Some((0, 2)));
    assert_eq!(modal_reorder_move(2, Some(7), 3), None);
    assert_eq!(modal_reorder_move(1, Some(0), 3), Some((1, 0)));
}

#[test]
fn hex_written_colour_reads_back() {
    for c in [[0u8, 0, 0, 0], [255, 128, 1, 254], [16, 32, 48, 64], [171, 205, 239, 15]] {
        let text = format!("#{:02x}{:02x}{:02x}{:02x}", c[0], c[1], c[2], c[3]);
        assert_eq!(rgba(&text), c);
    }
}

fn passphrase_field(text: &str) -> PassphraseInput {
    PassphraseInput { editing: TextEditing::new(text), focused: true, confirm_focused: false, error_shown: true }
}

#[test]
fn enter_submits_and_clears_passphrase() {
    let mut p = passphrase_field("  hunter2 ");
    let cmd = p.type_char('\r', PassphrasePage::Submits, false);
    assert_eq!(cmd, Some("e2e_setup:hunter2".to_string()));
    assert_eq!(p.editing.text_string(), "");
    assert_eq!(p.editing.cursor, 0);
    assert!(!p.focused);
    assert_eq!(p.type_char('\n', PassphrasePage::Submits, false), None);
}

#[test]
fn enter_off_submitting_page_keeps_text() {
    let mut p = passphrase_field("secret");
    assert_eq!(p.type_char('\r', PassphrasePage::Other, false), None);
    assert_eq!(p.editing.text_string(), "secret");
    assert!(!p.focused && !p.confirm_focused);
    let mut b = passphrase_field("   ");
    assert_eq!(b.type_char('\r', PassphrasePage::Submits, false), None);
    assert_eq!(b.editing.text_string(), "   ");
}

#[test]
fn typing_clears_error_and_tab_moves_in_wizard() {
    let mut p = passphrase_field("ab");
    assert_eq!(p.type_char('c', PassphrasePage::Submits, false), None);
    assert_eq!(p.editing.text_string(), "abc");
    assert!(!p.error_shown);
    p.error_shown = true;
    p.type_char('\u{8}', PassphrasePage::Submits, false);
    assert_eq!(p.editing.text_string(), "ab");
    assert!(!p.error_shown);
    p.type_char('\t', PassphrasePage::Submits, false);
    assert!(p.focused);
    p.type_char('\t', PassphrasePage::Submits, true);
    assert!(!p.focused && p.confirm_focused);
    let mut e = passphrase_field("x");
    e.type_char('\u{1b}', PassphrasePage::Submits, false);
    assert!(!e.focused);
    assert_eq!(e.editing.text_string(), "x");
}

fn profile_inputs() -> ProfileInputs {
    let mut anchored = TextEditing::new("abcdef");
    anchored.selection_start = Some(1);
    ProfileInputs {
        new_passphrase: anchored.clone(),
        profile_name: anchored.clone(),
        confirm_passphrase: anchored.clone(),
        recovery_key: anchored,
        new_passphrase_focused: false,
        profile_name_focused: true,
        confirm_passphrase_focused: true,
        recovery_key_focused: false,
        select_dragging: None,
    }
}

#[test]
fn text_drag_in_passphrase_focuses_it_alone() {
    let mut p = profile_inputs();
    p.start_text_drag("wizard_passphrase_input", 3);
    assert_eq!(p.new_passphrase.cursor, 3);
    assert_eq!(p.new_passphrase.selection_start, Some(3));
    assert!(p.new_passphrase_focused && !p.profile_name_focused && !p.confirm_passphrase_focused);
    assert_eq!(p.profile_name.selection_start, None);
    assert_eq!(p.confirm_passphrase.selection_start, None);
    assert_eq!(p.recovery_key.selection_start, None);
    assert_eq!(p.select_dragging.as_deref(), Some("wizard_passphrase_input"));
}

#[test]
fn text_drag_in_confirm_and_set_new_inputs() {
    let mut p = profile_inputs();
    p.start_text_drag("profile_mgr:create_confirm_passphrase_input", 2);
    assert!(p.confirm_passphrase_focused && !p.profile_name_focused);
    assert_eq!(p.confirm_passphrase.selection_start, Some(2));
    let mut q = profile_inputs();
    q.start_text_drag("profile_mgr:new_passphrase_input", 4);
    assert_eq!(q.new_passphrase.cursor, 4);
    assert_eq!(q.new_passphrase.selection_start, None);
    assert!(!q.new_passphrase_focused && !q.confirm_passphrase_focused);
    // The name and recovery inputs are left as they were.
    assert!(q.profile_name_focused);
    assert_eq!(q.profile_name.selection_start, Some(1));
    let mut u = profile_inputs();
    u.start_text_drag("profile_mgr:unknown", 0);
    assert!(u.profile_name_focused);
    assert_eq!(u.select_dragging.as_deref(), Some("profile_mgr:unknown"));
}
