use chart_input::hover::{crosshair_gate, CrosshairFacts, ToolbarHover};
use chart_input::widget_id::{hover_target, HoverTarget, LeafTabZone};

fn blank() -> ToolbarHover {
    ToolbarHover {
        left_toolbar: None,
        top_toolbar: None,
        right_toolbar: None,
        bottom_toolbar: None,
        dropdown_item: None,
        inline_item: None,
        inline_dropdown_item: None,
        watchlist_modal_widget: None,
        clock_popup_item: None,
        agent_leaf: None,
        free_leaf: None,
        leaf_tab: None,
        context_menu_item: None,
        search_item: None,
        sidebar_dirty: false,
    }
}

#[test]
fn toolbar_hover_replaces_previous_highlight() {
    let mut h = blank();
    h.apply_move(Some(hover_target("dtb:cursor")), false);
    assert_eq!(h.left_toolbar.as_deref(), Some("cursor"));
    h.apply_move(Some(hover_target("csb:symbol")), false);
    assert_eq!(h.left_toolbar, None);
    assert_eq!(h.top_toolbar.as_deref(), Some("symbol"));
    h.apply_move(Some(hover_target("rtb:zoom")), false);
    assert_eq!(h.top_toolbar, None);
    assert_eq!(h.right_toolbar.as_deref(), Some("zoom"));
}

#[test]
fn context_menu_item_kept_until_background() {
    let mut h = blank();
    h.apply_move(Some(hover_target("context_menu:item:copy")), false);
    assert_eq!(h.context_menu_item.as_deref(), Some("copy"));
    h.apply_move(Some(hover_target("dtb:cursor")), false);
    assert_eq!(h.context_menu_item.as_deref(), Some("copy"));
    h.apply_move(Some(hover_target("context_menu:bg")), false);
    assert_eq!(h.context_menu_item, None);
}

#[test]
fn inline_background_highlights_nothing() {
    let mut h = blank();
    h.apply_move(Some(hover_target("ilb:inline:style_option:dashed")), false);
    assert_eq!(h.inline_dropdown_item.as_deref(), Some("inline:style_option:dashed"));
    h.apply_move(Some(hover_target("ilb:__bg__")), false);
    assert_eq!(h.inline_dropdown_item, None);
    assert_eq!(h.inline_item, None);
    h.apply_move(Some(hover_target("ilb:color")), false);
    assert_eq!(h.inline_item.as_deref(), Some("color"));
}

#[test]
fn leaf_hover_marks_sidebar_dirty() {
    let mut h = blank();
    h.apply_move(Some(hover_target("agent:leaf:7:focus")), false);
    assert_eq!(h.agent_leaf, Some(7));
    assert!(h.sidebar_dirty);
    let mut h = blank();
    h.apply_move(Some(HoverTarget::FreeLeaf(1, 4)), false);
    assert_eq!(h.free_leaf, Some((1, 4)));
    assert!(h.sidebar_dirty);
    h.apply_move(Some(HoverTarget::LeafTab(3, LeafTabZone::GearMenu)), false);
    assert_eq!(h.free_leaf, None);
    assert_eq!(h.leaf_tab, Some((3, LeafTabZone::GearMenu)));
}

#[test]
fn no_widget_clears_search_item_only_in_search_modal() {
    let mut h = blank();
    h.apply_move(Some(hover_target("modal_search:item:BTCUSDT")), false);
    assert_eq!(h.search_item.as_deref(), Some("BTCUSDT"));
    h.apply_move(None, false);
    assert_eq!(h.search_item.as_deref(), Some("BTCUSDT"));
    h.apply_move(None, true);
    assert_eq!(h.search_item, None);
}

fn facts() -> CrosshairFacts {
    CrosshairFacts {
        ui_drag_active: false,
        watchlist_modal_open: false,
        geometry_on_canvas: true,
        hovered_widget: Some("chart:pane:main".to_string()),
        drawing: false,
    }
}

#[test]
fn crosshair_shows_over_chart_pane() {
    assert!(crosshair_gate(&facts()));
    let mut f = facts();
    f.hovered_widget = None;
    assert!(crosshair_gate(&f));
    f.hovered_widget = Some("dtb:cursor".to_string());
    assert!(!crosshair_gate(&f));
    f.drawing = true;
    assert!(crosshair_gate(&f));
}

#[test]
fn crosshair_hidden_by_ui_drag_modal_or_scales() {
    let mut f = facts();
    f.geometry_on_canvas = false;
    assert!(!crosshair_gate(&f));
    let mut g = facts();
    g.ui_drag_active = true;
    g.drawing = true;
    assert!(!crosshair_gate(&g));
    let mut h = facts();
    h.watchlist_modal_open = true;
    assert!(!crosshair_gate(&h));
}
