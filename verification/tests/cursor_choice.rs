use chart_input::cursor::{Cursor, CursorState, SeparatorOrientation};

use SeparatorOrientation::{Horizontal, Vertical};

fn idle() -> CursorState {
    CursorState {
        magnet_snapped: false,
        agent_sep_drag: None,
        slot_sep_drag: None,
        agent_separators: vec![Vertical, Horizontal],
        slot_separators: vec![vec![Horizontal], vec![Vertical, Vertical], vec![], vec![]],
        sidebar_separator_drag_active: false,
        watchlist_sep_drag_active: false,
        hovered: None,
        watchlist_modal_open: false,
        over_ui: false,
    }
}

fn hovering(id: &str) -> CursorState {
    CursorState { hovered: Some(id.to_string()), ..idle() }
}

#[test]
fn chart_decides_when_nothing_applies() {
    assert_eq!(idle().ui_cursor(), None);
}

#[test]
fn magnet_hides_cursor_first() {
    let st = CursorState { magnet_snapped: true, agent_sep_drag: Some(0), over_ui: true, ..idle() };
    assert_eq!(st.ui_cursor(), Some(Cursor::Hidden));
}

#[test]
fn separator_drags_keep_resize_cursor() {
    assert_eq!(CursorState { agent_sep_drag: Some(0), ..idle() }.ui_cursor(), Some(Cursor::EwResize));
    assert_eq!(CursorState { agent_sep_drag: Some(1), ..idle() }.ui_cursor(), Some(Cursor::NsResize));
    // An unknown separator gets the up-down cursor.
    assert_eq!(CursorState { agent_sep_drag: Some(9), ..idle() }.ui_cursor(), Some(Cursor::NsResize));
    assert_eq!(CursorState { slot_sep_drag: Some((1, 1)), ..idle() }.ui_cursor(), Some(Cursor::EwResize));
    assert_eq!(CursorState { slot_sep_drag: Some((0, 0)), ..idle() }.ui_cursor(), Some(Cursor::NsResize));
    assert_eq!(CursorState { slot_sep_drag: Some((7, 0)), ..idle() }.ui_cursor(), Some(Cursor::NsResize));
}

#[test]
fn sidebar_and_column_separators() {
    assert_eq!(hovering("right_sidebar_separator").ui_cursor(), Some(Cursor::EwResize));
    assert_eq!(CursorState { sidebar_separator_drag_active: true, ..idle() }.ui_cursor(), Some(Cursor::EwResize));
    assert_eq!(hovering("watchlist_sep_3").ui_cursor(), Some(Cursor::EwResize));
    assert_eq!(CursorState { watchlist_sep_drag_active: true, ..idle() }.ui_cursor(), Some(Cursor::EwResize));
}

#[test]
fn watchlist_modal_forces_default_cursor() {
    let st = CursorState { watchlist_modal_open: true, hovered: Some("agent:sep:0".to_string()), ..idle() };
    assert_eq!(st.ui_cursor(), Some(Cursor::Default));
    // Separator hovers still win over the modal.
    let st = CursorState { watchlist_modal_open: true, hovered: Some("watchlist_sep_1".to_string()), ..idle() };
    assert_eq!(st.ui_cursor(), Some(Cursor::EwResize));
}

#[test]
fn hovered_panel_separators() {
    assert_eq!(hovering("agent:sep:0").ui_cursor(), Some(Cursor::EwResize));
    assert_eq!(hovering("agent:sep:1").ui_cursor(), Some(Cursor::NsResize));
    assert_eq!(hovering("slot:1:sep:0").ui_cursor(), Some(Cursor::EwResize));
    assert_eq!(hovering("slot:0:sep:0").ui_cursor(), Some(Cursor::NsResize));
    // Slots past the free ones still show a resize cursor.
    assert_eq!(hovering("slot:9:sep:0").ui_cursor(), Some(Cursor::NsResize));
    assert_eq!(hovering("agent:sep:x").ui_cursor(), None);
}

#[test]
fn other_widgets_show_default_cursor() {
    let st = CursorState { over_ui: true, hovered: Some("toolbar:undo".to_string()), ..idle() };
    assert_eq!(st.ui_cursor(), Some(Cursor::Default));
}
