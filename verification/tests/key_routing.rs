use chart_input::keys::{panel_key, KeyPress, PanelKey};
use chart_input::routing::{CharRoute, CopyFocus, CopyRoute, KeyFocus, KeyRoute, TextField};

fn idle() -> KeyFocus {
    KeyFocus {
        show_profile_manager: false,
        show_welcome_wizard: false,
        needs_vault_unlock: false,
        user_settings_open: false,
        new_passphrase_focused: false,
        new_profile_name_focused: false,
        recovery_key_display_focused: false,
        confirm_passphrase_focused: false,
        profile_rename_focused: false,
        alert_settings_open: false,
        tg_token_focused: false,
        hex_color_focused: false,
        agent_pty_focused: false,
        agent_chat_focused: false,
        chart_browser_open: false,
        watchlist_overview_open: false,
        wl_group_name_open: false,
        preset_name_open: false,
        primitive_template_naming: false,
        indicator_template_naming: false,
        compare_template_naming: false,
        chart_template_naming: false,
        primitive_text_editing: false,
        indicator_text_editing: false,
        chart_text_editing: false,
        compare_settings_open: false,
        compare_text_editing: false,
        search_text_editing: false,
        primitive_settings_open: false,
        indicator_settings_open: false,
        chart_settings_open: false,
        search_overlay_open: false,
    }
}

#[test]
fn profile_manager_without_focus_blocks_every_key() {
    let f = KeyFocus { show_profile_manager: true, chart_browser_open: true, agent_pty_focused: true, ..idle() };
    for k in [KeyPress::Enter, KeyPress::Undo, KeyPress::Paste("x".to_string()), KeyPress::Escape] {
        assert_eq!(f.key_route(&k), KeyRoute::Blocked);
    }
}

#[test]
fn profile_manager_fields_take_keys() {
    let f = KeyFocus { show_profile_manager: true, new_passphrase_focused: true, ..idle() };
    assert_eq!(f.key_route(&KeyPress::Backspace), KeyRoute::Field(TextField::NewPassphrase));
    let f = KeyFocus { show_profile_manager: true, recovery_key_display_focused: true, ..idle() };
    assert_eq!(f.key_route(&KeyPress::Home), KeyRoute::Field(TextField::RecoveryKey));
    let f = KeyFocus { show_profile_manager: true, confirm_passphrase_focused: true, ..idle() };
    assert_eq!(f.key_route(&KeyPress::End), KeyRoute::Field(TextField::ConfirmPassphrase));
    let f = KeyFocus { show_profile_manager: true, new_profile_name_focused: true, ..idle() };
    assert_eq!(f.key_route(&KeyPress::Delete), KeyRoute::Field(TextField::NewProfileName));
}

#[test]
fn telegram_token_takes_only_pastes() {
    let f = KeyFocus { alert_settings_open: true, tg_token_focused: true, ..idle() };
    assert_eq!(f.key_route(&KeyPress::Paste("123:abc".to_string())), KeyRoute::TelegramTokenPaste);
    assert_eq!(f.key_route(&KeyPress::Enter), KeyRoute::HoveredPanel);
}

#[test]
fn rename_field_needs_user_settings() {
    let f = KeyFocus { user_settings_open: true, profile_rename_focused: true, ..idle() };
    assert_eq!(f.key_route(&KeyPress::ArrowLeft), KeyRoute::Field(TextField::ProfileRename));
    let f = KeyFocus { profile_rename_focused: true, ..idle() };
    assert_eq!(f.key_route(&KeyPress::ArrowLeft), KeyRoute::HoveredPanel);
}

#[test]
fn store_fields_before_undo() {
    let f = KeyFocus { hex_color_focused: true, agent_pty_focused: true, ..idle() };
    assert_eq!(f.key_route(&KeyPress::Undo), KeyRoute::HexColor);
    let f = KeyFocus { agent_pty_focused: true, agent_chat_focused: true, ..idle() };
    assert_eq!(f.key_route(&KeyPress::Enter), KeyRoute::AgentPty);
    let f = KeyFocus { agent_chat_focused: true, chart_browser_open: true, ..idle() };
    assert_eq!(f.key_route(&KeyPress::Redo), KeyRoute::AgentChat);
}

#[test]
fn undo_redo_before_modal_fields() {
    let f = KeyFocus { chart_browser_open: true, ..idle() };
    assert_eq!(f.key_route(&KeyPress::Undo), KeyRoute::Undo);
    assert_eq!(f.key_route(&KeyPress::Redo), KeyRoute::Redo);
    assert_eq!(f.key_route(&KeyPress::Backspace), KeyRoute::Field(TextField::ChartBrowserSearch));
}

#[test]
fn modal_fields_in_priority_order() {
    let k = KeyPress::ArrowRight;
    let f = KeyFocus { watchlist_overview_open: true, wl_group_name_open: true, ..idle() };
    assert_eq!(f.key_route(&k), KeyRoute::Field(TextField::WatchlistSearch));
    let f = KeyFocus { wl_group_name_open: true, preset_name_open: true, ..idle() };
    assert_eq!(f.key_route(&k), KeyRoute::Field(TextField::WatchlistGroupName));
    let f = KeyFocus { preset_name_open: true, primitive_template_naming: true, ..idle() };
    assert_eq!(f.key_route(&k), KeyRoute::Field(TextField::PresetName));
    let f = KeyFocus { indicator_template_naming: true, primitive_text_editing: true, ..idle() };
    assert_eq!(f.key_route(&k), KeyRoute::Field(TextField::IndicatorTemplateName));
    let f = KeyFocus { chart_template_naming: true, ..idle() };
    assert_eq!(f.key_route(&k), KeyRoute::Field(TextField::ChartTemplateName));
    let f = KeyFocus { compare_template_naming: true, ..idle() };
    assert_eq!(f.key_route(&k), KeyRoute::Field(TextField::CompareTemplateName));
    let f = KeyFocus { primitive_text_editing: true, chart_text_editing: true, ..idle() };
    assert_eq!(f.key_route(&k), KeyRoute::Field(TextField::PrimitiveText));
    let f = KeyFocus { chart_text_editing: true, search_text_editing: true, ..idle() };
    assert_eq!(f.key_route(&k), KeyRoute::Field(TextField::ChartText));
    let f = KeyFocus { compare_text_editing: true, ..idle() };
    assert_eq!(f.key_route(&k), KeyRoute::HoveredPanel);
    let f = KeyFocus { compare_settings_open: true, compare_text_editing: true, ..idle() };
    assert_eq!(f.key_route(&k), KeyRoute::Field(TextField::CompareText));
    let f = KeyFocus { search_text_editing: true, ..idle() };
    assert_eq!(f.key_route(&k), KeyRoute::Field(TextField::SearchText));
}

#[test]
fn unfocused_keys_go_to_hovered_panel() {
    assert_eq!(idle().key_route(&KeyPress::PageDown), KeyRoute::HoveredPanel);
}

#[test]
fn panel_key_codes() {
    assert_eq!(panel_key(&KeyPress::ArrowUp), PanelKey::ArrowUp);
    assert_eq!(panel_key(&KeyPress::PageDown), PanelKey::PageDown);
    assert_eq!(panel_key(&KeyPress::Home), PanelKey::Home);
    assert_eq!(panel_key(&KeyPress::Escape), PanelKey::Escape);
    assert_eq!(panel_key(&KeyPress::Delete), PanelKey::Delete);
    assert_eq!(panel_key(&KeyPress::SelectAll), PanelKey::Unknown);
    assert_eq!(panel_key(&KeyPress::Paste("v".to_string())), PanelKey::Unknown);
    assert_eq!(panel_key(&KeyPress::CtrlC), PanelKey::Unknown);
}

fn nothing_to_copy() -> CopyFocus {
    CopyFocus {
        store_has_selection: false,
        chart_browser_open: false,
        wl_group_name_open: false,
        preset_name_open: false,
        primitive_text_editing: false,
        indicator_text_editing: false,
        chart_text_editing: false,
        watchlist_overview_open: false,
        search_text_editing: false,
        new_passphrase_selected: false,
        new_profile_name_selected: false,
        recovery_key_selected: false,
        confirm_passphrase_selected: false,
        profile_rename_selected: false,
    }
}

#[test]
fn copy_prefers_store_selection() {
    let f = CopyFocus { store_has_selection: true, chart_browser_open: true, ..nothing_to_copy() };
    assert_eq!(f.copy_route(), CopyRoute::Store);
}

#[test]
fn copy_takes_open_modal_field() {
    let f = CopyFocus { chart_browser_open: true, preset_name_open: true, ..nothing_to_copy() };
    assert_eq!(f.copy_route(), CopyRoute::Field(TextField::ChartBrowserSearch));
    let f = CopyFocus { watchlist_overview_open: true, new_passphrase_selected: true, ..nothing_to_copy() };
    assert_eq!(f.copy_route(), CopyRoute::Field(TextField::WatchlistSearch));
    let f = CopyFocus { search_text_editing: true, ..nothing_to_copy() };
    assert_eq!(f.copy_route(), CopyRoute::Field(TextField::SearchText));
}

#[test]
fn copy_falls_back_to_profile_fields() {
    let f = CopyFocus { recovery_key_selected: true, profile_rename_selected: true, ..nothing_to_copy() };
    assert_eq!(f.copy_route(), CopyRoute::Field(TextField::RecoveryKey));
    let f = CopyFocus { profile_rename_selected: true, ..nothing_to_copy() };
    assert_eq!(f.copy_route(), CopyRoute::Field(TextField::ProfileRename));
    assert_eq!(nothing_to_copy().copy_route(), CopyRoute::Nothing);
}

#[test]
fn profile_manager_without_focus_blocks_chars_too() {
    let f = KeyFocus { show_profile_manager: true, chart_browser_open: true, ..idle() };
    assert_eq!(f.char_route(), CharRoute::Blocked);
    assert_eq!(f.key_route(&KeyPress::Enter), KeyRoute::Blocked);
    let f = KeyFocus { show_profile_manager: true, confirm_passphrase_focused: true, ..idle() };
    assert_eq!(f.char_route(), CharRoute::Field(TextField::ConfirmPassphrase));
}

#[test]
fn chars_go_to_modal_search_before_store_fields() {
    let f = KeyFocus { chart_browser_open: true, hex_color_focused: true, agent_pty_focused: true, ..idle() };
    assert_eq!(f.char_route(), CharRoute::Field(TextField::ChartBrowserSearch));
    // Named keys go the other way round.
    assert_eq!(f.key_route(&KeyPress::Backspace), KeyRoute::HexColor);
    let f = KeyFocus { watchlist_overview_open: true, agent_chat_focused: true, ..idle() };
    assert_eq!(f.char_route(), CharRoute::Field(TextField::WatchlistSearch));
    let f = KeyFocus { agent_pty_focused: true, agent_chat_focused: true, ..idle() };
    assert_eq!(f.char_route(), CharRoute::AgentPty);
    let f = KeyFocus { agent_chat_focused: true, preset_name_open: true, ..idle() };
    assert_eq!(f.char_route(), CharRoute::AgentChat);
}

#[test]
fn chars_go_to_preset_name_before_profile_fields() {
    let f = KeyFocus { preset_name_open: true, user_settings_open: true, new_passphrase_focused: true, ..idle() };
    assert_eq!(f.char_route(), CharRoute::Field(TextField::PresetName));
    let f = KeyFocus { user_settings_open: true, new_passphrase_focused: true, profile_rename_focused: true, ..idle() };
    assert_eq!(f.char_route(), CharRoute::Field(TextField::NewPassphrase));
    assert_eq!(f.key_route(&KeyPress::Home), KeyRoute::Field(TextField::ProfileRename));
    let f = KeyFocus { needs_vault_unlock: true, new_passphrase_focused: true, ..idle() };
    assert_eq!(f.char_route(), CharRoute::Field(TextField::NewPassphrase));
    let f = KeyFocus { show_welcome_wizard: true, new_profile_name_focused: true, ..idle() };
    assert_eq!(f.char_route(), CharRoute::Field(TextField::NewProfileName));
    let f = KeyFocus { show_profile_manager: true, recovery_key_display_focused: true, ..idle() };
    assert_eq!(f.char_route(), CharRoute::Field(TextField::RecoveryKey));
}

#[test]
fn settings_editors_take_chars_only_while_open() {
    let f = KeyFocus { primitive_text_editing: true, ..idle() };
    assert_eq!(f.char_route(), CharRoute::Ignored);
    assert_eq!(f.key_route(&KeyPress::Backspace), KeyRoute::Field(TextField::PrimitiveText));
    let f = KeyFocus { primitive_settings_open: true, primitive_text_editing: true, ..idle() };
    assert_eq!(f.char_route(), CharRoute::Field(TextField::PrimitiveText));
    let f = KeyFocus { indicator_settings_open: true, indicator_text_editing: true, chart_settings_open: true, chart_text_editing: true, ..idle() };
    assert_eq!(f.char_route(), CharRoute::Field(TextField::IndicatorText));
    let f = KeyFocus { chart_settings_open: true, chart_text_editing: true, ..idle() };
    assert_eq!(f.char_route(), CharRoute::Field(TextField::ChartText));
    let f = KeyFocus { compare_settings_open: true, compare_text_editing: true, ..idle() };
    assert_eq!(f.char_route(), CharRoute::Field(TextField::CompareText));
    let f = KeyFocus { wl_group_name_open: true, primitive_settings_open: true, primitive_text_editing: true, ..idle() };
    assert_eq!(f.char_route(), CharRoute::Field(TextField::WatchlistGroupName));
}

#[test]
fn token_and_search_overlay_come_last() {
    let f = KeyFocus { alert_settings_open: true, tg_token_focused: true, search_overlay_open: true, ..idle() };
    assert_eq!(f.char_route(), CharRoute::TelegramToken);
    let f = KeyFocus { tg_token_focused: true, search_overlay_open: true, ..idle() };
    assert_eq!(f.char_route(), CharRoute::SearchQuery);
    assert_eq!(idle().char_route(), CharRoute::Ignored);
}
