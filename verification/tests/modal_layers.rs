use chart_input::modal::{layer_close_action, EscapeAction, LayerClose, ModalFlags, RightClickBlockers};

fn closed() -> ModalFlags {
    ModalFlags {
        chart_browser_open: false,
        tags_tabs_open: false,
        wl_group_name_open: false,
        preset_name_open: false,
        primitive_text_editing: false,
        indicator_text_editing: false,
        chart_text_editing: false,
        search_modal_open: false,
        context_menu_open: false,
        sync_color_grid_open: false,
        primitive_settings_open: false,
        chart_settings_open: false,
        indicator_settings_open: false,
        alert_settings_open: false,
        compare_settings_open: false,
    }
}

fn all_open() -> ModalFlags {
    ModalFlags {
        chart_browser_open: true,
        tags_tabs_open: true,
        wl_group_name_open: true,
        preset_name_open: true,
        primitive_text_editing: true,
        indicator_text_editing: true,
        chart_text_editing: true,
        search_modal_open: true,
        context_menu_open: true,
        sync_color_grid_open: true,
        primitive_settings_open: true,
        chart_settings_open: true,
        indicator_settings_open: true,
        alert_settings_open: true,
        compare_settings_open: true,
    }
}

#[test]
fn escape_with_nothing_open_deselects_tool() {
    let mut f = closed();
    assert_eq!(f.escape(), EscapeAction::DeselectTool);
    assert_eq!(f, closed());
}

#[test]
fn escape_closes_layers_in_priority_order() {
    let mut f = all_open();
    let expected = [
        EscapeAction::CloseChartBrowser,
        EscapeAction::CloseTagsTabs,
        EscapeAction::CloseWatchlistGroupName,
        EscapeAction::ClosePresetName,
        EscapeAction::CancelPrimitiveTextEdit,
        EscapeAction::CancelIndicatorTextEdit,
        EscapeAction::CancelChartTextEdit,
        EscapeAction::CloseSearchModal,
        EscapeAction::CloseContextMenu,
        EscapeAction::CloseSyncColorGrid,
        EscapeAction::ClosePrimitiveSettings,
        EscapeAction::CloseChartSettings,
        EscapeAction::CloseIndicatorSettings,
        EscapeAction::CloseAlertSettings,
        EscapeAction::CloseCompareSettings,
    ];
    for a in expected {
        assert_eq!(f.escape(), a);
    }
    assert_eq!(f, closed());
    assert_eq!(f.escape(), EscapeAction::DeselectTool);
}

#[test]
fn text_edit_is_cancelled_before_its_settings_modal() {
    let mut f = ModalFlags { primitive_settings_open: true, primitive_text_editing: true, ..closed() };
    assert_eq!(f.escape(), EscapeAction::CancelPrimitiveTextEdit);
    assert!(f.primitive_settings_open);
    assert!(!f.primitive_text_editing);
    assert_eq!(f.escape(), EscapeAction::ClosePrimitiveSettings);
    assert_eq!(f, closed());
}

#[test]
fn each_escape_closes_exactly_one_layer() {
    let mut f = ModalFlags { search_modal_open: true, alert_settings_open: true, tags_tabs_open: true, ..closed() };
    assert_eq!(f.escape(), EscapeAction::CloseTagsTabs);
    assert_eq!(f, ModalFlags { search_modal_open: true, alert_settings_open: true, ..closed() });
    assert_eq!(f.escape(), EscapeAction::CloseSearchModal);
    assert_eq!(f.escape(), EscapeAction::CloseAlertSettings);
    assert_eq!(f.escape(), EscapeAction::DeselectTool);
}

#[test]
fn layer_close_for_known_layers() {
    let cases = [
        ("color_picker_primitive", LayerClose::PrimitiveColorPickerOneLevel),
        ("color_picker_indicator", LayerClose::IndicatorColorPickerOneLevel),
        ("color_picker_chart", LayerClose::ChartColorPickerOneLevel),
        ("color_picker_panel", LayerClose::PanelColorPickerOneLevel),
        ("primitive_settings", LayerClose::PrimitiveSettings),
        ("chart_settings", LayerClose::ChartSettings),
        ("indicator_settings", LayerClose::IndicatorSettings),
        ("alert_settings", LayerClose::AlertSettings),
        ("modal_search", LayerClose::SearchModal),
        ("overlay_settings", LayerClose::OverlaySettings),
        ("tags_tabs", LayerClose::TagsTabs),
        ("chart_browser", LayerClose::ChartBrowser),
        ("user_settings", LayerClose::UserSettings),
        ("profile_manager", LayerClose::ProfileManager),
        ("preset_name_input", LayerClose::PresetNameInput),
        ("wl_group_name_input", LayerClose::WatchlistGroupNameInput),
        ("watchlist_modal", LayerClose::WatchlistModal),
    ];
    for (name, action) in cases {
        assert_eq!(layer_close_action(name, false), action, "layer {}", name);
    }
}

#[test]
fn profile_manager_stays_while_vault_locked() {
    assert_eq!(layer_close_action("profile_manager", true), LayerClose::KeepProfileManager);
    assert_eq!(layer_close_action("chart_settings", true), LayerClose::ChartSettings);
}

#[test]
fn unknown_layer_closes_everything() {
    assert_eq!(layer_close_action("", false), LayerClose::CloseAllModals);
    assert_eq!(layer_close_action("chart_setting", false), LayerClose::CloseAllModals);
    assert_eq!(layer_close_action("chart_settings ", false), LayerClose::CloseAllModals);
    assert_eq!(layer_close_action("Chart_Settings", false), LayerClose::CloseAllModals);
}

fn no_blockers() -> RightClickBlockers {
    RightClickBlockers {
        search_modal_open: false,
        watchlist_modal_open: false,
        wl_group_name_open: false,
        primitive_settings_open: false,
        indicator_settings_open: false,
        alert_settings_open: false,
        compare_settings_open: false,
        chart_settings_open: false,
        preset_name_open: false,
        chart_browser_open: false,
        overlay_settings_open: false,
        tags_tabs_open: false,
    }
}

#[test]
fn right_click_blocked_by_any_modal() {
    assert!(!no_blockers().blocks_right_click());
    assert!(RightClickBlockers { search_modal_open: true, ..no_blockers() }.blocks_right_click());
    assert!(RightClickBlockers { tags_tabs_open: true, ..no_blockers() }.blocks_right_click());
    assert!(RightClickBlockers { overlay_settings_open: true, ..no_blockers() }.blocks_right_click());
    assert!(RightClickBlockers { wl_group_name_open: true, ..no_blockers() }.blocks_right_click());
}
