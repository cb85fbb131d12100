use std::collections::HashMap;

use chart_input::chart_app::{counts_as_chat, known_chat, AgentSession, ChartApp, Crosshair, TransientOverlays};
use chart_input::modal::{EscapeAction, ModalFlags};
use chart_input::selection::{chat_text, grid_text, ChatLine, ChatSelection, PtyGrid, PtySelection};

fn grid(cols: u16, rows: &[&str]) -> PtyGrid {
    PtyGrid { cols, cells: rows.iter().map(|r| r.chars().map(|c| c.to_string()).collect()).collect() }
}

fn sel(anchor: (u16, u16), head: (u16, u16)) -> PtySelection {
    let mut s = PtySelection::new(anchor.0, anchor.1);
    s.extend_to(head.0, head.1);
    s
}

#[test]
fn pty_selection_orders_its_ends() {
    let s = sel((2, 5), (1, 9));
    assert_eq!(s.ordered(), ((1, 9), (2, 5)));
    let s = sel((1, 3), (1, 1));
    assert_eq!(s.ordered(), ((1, 1), (1, 3)));
    let s = sel((0, 0), (3, 0));
    assert_eq!(s.ordered(), ((0, 0), (3, 0)));
    assert!(PtySelection::new(4, 4).is_empty());
    assert!(!s.is_empty());
}

#[test]
fn single_row_selection_copies_cells() {
    let g = grid(10, &["hello world"]);
    assert_eq!(grid_text(&g, &sel((0, 0), (0, 5))), "hello");
    assert_eq!(grid_text(&g, &sel((0, 5), (0, 0))), "hello");
    assert_eq!(grid_text(&g, &sel((0, 6), (0, 50))), "world");
}

#[test]
fn multi_row_selection_trims_and_joins() {
    let g = grid(8, &["ab  cd  ", "efgh    ", "ij kl   "]);
    // First row from column 2 to the end, middle row whole, last row up to column 2.
    assert_eq!(grid_text(&g, &sel((0, 2), (2, 2))), "  cd\nefgh\nij");
    assert_eq!(grid_text(&g, &sel((2, 2), (0, 2))), "  cd\nefgh\nij");
}

#[test]
fn empty_row_pieces_add_no_line_break() {
    let g = grid(4, &["abcd", "efgh", "ijkl"]);
    // The first and last rows contribute no cells: only the middle row and
    // the line break after it remain.
    assert_eq!(grid_text(&g, &sel((0, 4), (2, 0))), "efgh\n");
}

#[test]
fn rows_past_the_grid_are_ignored() {
    let g = grid(4, &["abcd", "ef"]);
    assert_eq!(grid_text(&g, &sel((0, 1), (5, 2))), "bcd\nef\n");
}

#[test]
fn trailing_unicode_whitespace_is_trimmed() {
    let g = grid(6, &["ab\u{3000}\t  ", "cd    "]);
    assert_eq!(grid_text(&g, &sel((0, 0), (1, 6))), "ab\ncd");
}

fn line(msg: u32, line: u32, leaf: u64, text: &str) -> ChatLine {
    ChatLine { msg, line, leaf, text: text.to_string() }
}

fn chat_sel(anchor: (u32, u32, u16), head: (u32, u32, u16)) -> ChatSelection {
    let mut s = ChatSelection::new_at(anchor.0, anchor.1, anchor.2);
    s.extend_to(head.0, head.1, head.2);
    s
}

#[test]
fn chat_selection_orders_its_ends() {
    assert_eq!(chat_sel((1, 2, 3), (1, 2, 1)).ordered(), ((1, 2, 1), (1, 2, 3)));
    assert_eq!(chat_sel((2, 0, 0), (1, 5, 9)).ordered(), ((1, 5, 9), (2, 0, 0)));
    assert!(ChatSelection::new_at(1, 1, 1).is_empty());
}

#[test]
fn chat_single_line_takes_char_range() {
    let lines = vec![line(0, 0, 7, "héllo wörld")];
    assert_eq!(chat_text(&lines, 7, &chat_sel((0, 0, 1), (0, 0, 4))), "éll");
    assert_eq!(chat_text(&lines, 7, &chat_sel((0, 0, 6), (0, 0, 200))), "wörld");
}

#[test]
fn chat_multi_line_takes_first_tail_middle_and_last_head() {
    let lines = vec![
        line(0, 0, 7, "first line"),
        line(0, 1, 7, "second"),
        line(1, 0, 9, "other leaf"),
        line(1, 0, 7, "third line"),
        line(2, 0, 7, "after"),
    ];
    let t = chat_text(&lines, 7, &chat_sel((1, 0, 5), (0, 0, 6)));
    assert_eq!(t, "line\nsecond\nthird");
}

#[test]
fn chat_lines_outside_selection_are_skipped() {
    let lines = vec![line(0, 0, 7, "aaa"), line(5, 0, 7, "bbb")];
    assert_eq!(chat_text(&lines, 7, &chat_sel((1, 0, 0), (4, 0, 3))), "");
    assert_eq!(chat_text(&lines, 8, &chat_sel((0, 0, 0), (5, 0, 3))), "");
}

fn overlays() -> TransientOverlays {
    TransientOverlays {
        open_dropdown_id: Some("timeframe".to_string()),
        hovered_dropdown_item: Some("1h".to_string()),
        open_inline_style_dropdown: true,
        open_inline_width_dropdown: true,
        hovered_inline_dropdown_item: Some("2".to_string()),
        watchlist_config_dropdown_open: true,
        watchlist_color_picker_open: Some(3),
        slot_spawn_dropdown: Some(1),
        agent_model_dropdown: Some(11),
        agent_perm_dropdown: Some(12),
        agent_sessions_dropdown: Some(13),
    }
}

fn no_modals() -> ModalFlags {
    ModalFlags {
        chart_browser_open: false,
        tags_tabs_open: false,
        wl_group_name_open: false,
        preset_name_open: false,
        primitive_text_editing: false,
        indicator_text_editing: false,
        chart_text_editing: false,
        search_modal_open: false,
        context_menu_open: false,
        sync_color_grid_open: false,
        primitive_settings_open: false,
        chart_settings_open: false,
        indicator_settings_open: false,
        alert_settings_open: false,
        compare_settings_open: false,
    }
}

fn app() -> ChartApp {
    let mut pty = HashMap::new();
    pty.insert(1u64, sel((0, 0), (1, 2)));
    pty.insert(2u64, sel((0, 1), (0, 3)));
    let mut grids = HashMap::new();
    grids.insert(1u64, grid(4, &["abcd", "efgh"]));
    grids.insert(2u64, grid(4, &["wxyz"]));
    let mut chats = HashMap::new();
    chats.insert(1u64, chat_sel((0, 0, 2), (0, 1, 3)));
    let mut sessions = HashMap::new();
    sessions.insert(1u64, AgentSession { instance: 0xabc, pty_mode: true });
    sessions.insert(2u64, AgentSession { instance: 0xdef, pty_mode: false });
    ChartApp {
        focused_agent_leaf: Some(1),
        agent_leaves: sessions,
        agent_pty_selections: pty,
        agent_chat_selections: chats,
        agent_pty_grids: grids,
        chat_line_rects: Some(vec![line(0, 0, 1, "hello"), line(0, 1, 1, "there")]),
        sidebar_data_dirty: false,
        sidebar_separator_drag_active: false,
        active_crosshair: None,
        overlays: overlays(),
        modals: no_modals(),
    }
}

#[test]
fn pty_text_of_focused_leaf() {
    let mut a = app();
    assert_eq!(a.pty_selection_text(), "abcd\nef");
    a.focused_agent_leaf = Some(2);
    assert_eq!(a.pty_selection_text(), "xy");
    a.focused_agent_leaf = Some(3);
    assert_eq!(a.pty_selection_text(), "");
    a.focused_agent_leaf = None;
    assert_eq!(a.pty_selection_text(), "");
}

#[test]
fn pty_text_needs_a_non_empty_selection_and_a_grid() {
    let mut a = app();
    a.agent_pty_selections.insert(1, PtySelection::new(0, 1));
    assert_eq!(a.pty_selection_text(), "");
    let mut a = app();
    a.agent_pty_grids.remove(&1);
    assert_eq!(a.pty_selection_text(), "");
}

#[test]
fn clearing_selection_marks_sidebar_dirty_and_copies_nothing() {
    let mut a = app();
    a.clear_pty_selection();
    assert!(a.sidebar_data_dirty);
    assert!(!a.agent_pty_selections.contains_key(&1));
    assert!(a.agent_pty_selections.contains_key(&2));
    assert_eq!(a.pty_selection_text(), "");
    // Clearing again changes nothing and leaves the dirty flag as it was.
    a.sidebar_data_dirty = false;
    a.clear_pty_selection();
    assert!(!a.sidebar_data_dirty);
    assert_eq!(a.agent_pty_selections.len(), 1);
}

#[test]
fn clearing_without_focus_changes_nothing() {
    let mut a = app();
    a.focused_agent_leaf = None;
    a.clear_pty_selection();
    assert!(!a.sidebar_data_dirty);
    assert_eq!(a.agent_pty_selections.len(), 2);
}

#[test]
fn chat_text_of_focused_leaf() {
    let a = app();
    assert_eq!(a.chat_selection_text(), Some((1, "llo\nthe".to_string())));
}

#[test]
fn chat_text_none_cases() {
    let mut a = app();
    a.chat_line_rects = None;
    assert_eq!(a.chat_selection_text(), None);
    let mut a = app();
    a.agent_chat_selections.insert(1, ChatSelection::new_at(0, 0, 1));
    assert_eq!(a.chat_selection_text(), None);
    let mut a = app();
    a.chat_line_rects = Some(vec![line(0, 0, 5, "elsewhere")]);
    assert_eq!(a.chat_selection_text(), None);
    let mut a = app();
    a.focused_agent_leaf = Some(2);
    assert_eq!(a.chat_selection_text(), None);
}

#[test]
fn magnet_snap_needs_visible_snapped_crosshair() {
    let mut a = app();
    assert!(!a.is_magnet_snapped());
    a.active_crosshair = Some(Crosshair { visible: true, snapped: true });
    assert!(a.is_magnet_snapped());
    a.active_crosshair = Some(Crosshair { visible: false, snapped: true });
    assert!(!a.is_magnet_snapped());
    a.active_crosshair = Some(Crosshair { visible: true, snapped: false });
    assert!(!a.is_magnet_snapped());
}

#[test]
fn separator_drag_flag_is_reported() {
    let mut a = app();
    assert!(!a.is_sidebar_separator_dragging());
    a.sidebar_separator_drag_active = true;
    assert!(a.is_sidebar_separator_dragging());
}

#[test]
fn closing_overlays_closes_them_all_and_nothing_else() {
    let mut a = app();
    a.modals.search_modal_open = true;
    a.modals.context_menu_open = true;
    a.modals.chart_settings_open = true;
    a.close_transient_overlays();
    let o = &a.overlays;
    assert_eq!(o.open_dropdown_id, None);
    assert_eq!(o.hovered_dropdown_item, None);
    assert!(!o.open_inline_style_dropdown);
    assert!(!o.open_inline_width_dropdown);
    assert_eq!(o.hovered_inline_dropdown_item, None);
    assert!(!a.modals.context_menu_open);
    assert!(!a.modals.search_modal_open);
    assert!(!o.watchlist_config_dropdown_open);
    assert_eq!(o.watchlist_color_picker_open, None);
    assert_eq!(o.slot_spawn_dropdown, None);
    assert_eq!(o.agent_model_dropdown, None);
    assert_eq!(o.agent_perm_dropdown, None);
    assert_eq!(o.agent_sessions_dropdown, None);
    assert!(a.modals.chart_settings_open);
    assert_eq!(a.agent_pty_selections.len(), 2);
}

#[test]
fn escape_on_app_dismisses_one_modal() {
    let mut a = app();
    a.modals.chart_settings_open = true;
    a.modals.context_menu_open = true;
    assert_eq!(a.on_escape(), EscapeAction::CloseContextMenu);
    assert_eq!(a.on_escape(), EscapeAction::CloseChartSettings);
    assert_eq!(a.on_escape(), EscapeAction::DeselectTool);
    assert_eq!(a.modals, no_modals());
    assert_eq!(a.overlays, overlays());
}

#[test]
fn inline_chevrons_open_one_dropdown_at_a_time() {
    let mut o = overlays();
    o.open_inline_style_dropdown = false;
    o.open_inline_width_dropdown = false;
    o.toggle_inline_style_menu();
    assert!(o.open_inline_style_dropdown);
    assert!(!o.open_inline_width_dropdown);
    assert_eq!(o.hovered_inline_dropdown_item, None);
    o.hovered_inline_dropdown_item = Some("dashed".to_string());
    o.toggle_inline_width_menu();
    assert!(!o.open_inline_style_dropdown);
    assert!(o.open_inline_width_dropdown);
    assert_eq!(o.hovered_inline_dropdown_item, None);
    o.toggle_inline_width_menu();
    assert!(!o.open_inline_style_dropdown);
    assert!(!o.open_inline_width_dropdown);
    o.toggle_inline_style_menu();
    o.close_inline_dropdowns();
    assert!(!o.open_inline_style_dropdown && !o.open_inline_width_dropdown);
    // The other overlays are left alone.
    assert_eq!(o.open_dropdown_id, Some("timeframe".to_string()));
    assert!(o.watchlist_config_dropdown_open);
}

#[test]
fn chat_selection_direction_is_irrelevant() {
    let lines = vec![line(0, 0, 7, "first line"), line(0, 1, 7, "second"), line(1, 0, 7, "third")];
    let forward = chat_text(&lines, 7, &chat_sel((0, 0, 3), (1, 0, 2)));
    let backward = chat_text(&lines, 7, &chat_sel((1, 0, 2), (0, 0, 3)));
    assert_eq!(forward, "st line\nsecond\nth");
    assert_eq!(forward, backward);
}

#[test]
fn pty_paste_goes_to_focused_terminal_session() {
    let mut a = app();
    assert_eq!(a.pty_write_target(), Some(0xabc));
    assert_eq!(a.paste_to_pty("ls -la"), Some(0xabc));
    assert_eq!(a.paste_to_pty(""), None);
    a.focused_agent_leaf = Some(2);
    assert_eq!(a.pty_write_target(), None);
    assert_eq!(a.paste_to_pty("x"), None);
    a.focused_agent_leaf = Some(3);
    assert_eq!(a.paste_to_pty("x"), None);
    a.focused_agent_leaf = None;
    assert_eq!(a.pty_write_target(), None);
}

#[test]
fn chat_enter_sends_to_focused_session() {
    let mut a = app();
    assert_eq!(a.chat_send_target("hello"), Some(0xabc));
    a.focused_agent_leaf = Some(2);
    assert_eq!(a.chat_send_target("hello"), Some(0xdef));
    assert_eq!(a.chat_send_target(""), None);
    a.focused_agent_leaf = Some(9);
    assert_eq!(a.chat_send_target("hello"), None);
}

#[test]
fn ending_pty_drag_keeps_non_empty_selection() {
    let mut a = app();
    a.end_pty_selection_drag();
    assert!(a.sidebar_data_dirty);
    assert_eq!(a.agent_pty_selections.get(&1), Some(&sel((0, 0), (1, 2))));
    assert_eq!(a.agent_pty_selections.len(), 2);
}

#[test]
fn ending_pty_drag_drops_empty_selection() {
    let mut a = app();
    a.agent_pty_selections.insert(1, PtySelection::new(1, 1));
    a.end_pty_selection_drag();
    assert!(a.sidebar_data_dirty);
    assert!(!a.agent_pty_selections.contains_key(&1));
    assert!(a.agent_pty_selections.contains_key(&2));
    // Without focus only the redraw happens.
    let mut b = app();
    b.focused_agent_leaf = None;
    b.agent_pty_selections.insert(1, PtySelection::new(1, 1));
    b.end_pty_selection_drag();
    assert!(b.sidebar_data_dirty);
    assert_eq!(b.agent_pty_selections.len(), 2);
}

#[test]
fn ending_chat_drag_drops_only_empty_selection() {
    let mut a = app();
    a.end_chat_selection_drag();
    assert!(a.sidebar_data_dirty);
    assert!(a.agent_chat_selections.contains_key(&1));
    a.agent_chat_selections.insert(1, ChatSelection::new_at(0, 1, 4));
    a.end_chat_selection_drag();
    assert!(!a.agent_chat_selections.contains_key(&1));
    // The terminal selections are left alone.
    assert_eq!(a.agent_pty_selections.len(), 2);
}

#[test]
fn unknown_leaf_counts_as_chat_but_not_known_chat() {
    let a = app();
    assert!(!a.leaf_is_chat(1));
    assert!(a.leaf_is_chat(2));
    assert!(a.leaf_is_chat(9));
    assert!(!a.leaf_is_known_chat(1));
    assert!(a.leaf_is_known_chat(2));
    assert!(!a.leaf_is_known_chat(9));
    assert!(a.leaf_is_pty(1));
    assert!(!a.leaf_is_pty(2));
    assert!(!a.leaf_is_pty(9));
    assert!(counts_as_chat(None) && counts_as_chat(Some(false)) && !counts_as_chat(Some(true)));
    assert!(!known_chat(None) && known_chat(Some(false)) && !known_chat(Some(true)));
}
