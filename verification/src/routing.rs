//! Which text field receives a named key, and which field's selection a
//! copy takes: the fields are tried in a fixed priority order.

use vstd::prelude::*;
use crate::keys::KeyPress;

verus! {

/// Focus and open/closed state of the text fields that can take keys.
#[derive(Debug, Clone, Copy, PartialEq, Eq)]
pub struct KeyFocus {
    pub show_profile_manager: bool,
    pub show_welcome_wizard: bool,
    pub needs_vault_unlock: bool,
    pub user_settings_open: bool,
    pub new_passphrase_focused: bool,
    pub new_profile_name_focused: bool,
    pub recovery_key_display_focused: bool,
    pub confirm_passphrase_focused: bool,
    pub profile_rename_focused: bool,
    pub alert_settings_open: bool,
    pub tg_token_focused: bool,
    pub hex_color_focused: bool,
    pub agent_pty_focused: bool,
    pub agent_chat_focused: bool,
    pub chart_browser_open: bool,
    /// The watchlist modal is open on its Overview tab.
    pub watchlist_overview_open: bool,
    pub wl_group_name_open: bool,
    pub preset_name_open: bool,
    /// A settings modal is naming a template (save-template mode with an editor).
    pub primitive_template_naming: bool,
    pub indicator_template_naming: bool,
    pub compare_template_naming: bool,
    pub chart_template_naming: bool,
    /// A settings modal has an inline text editor.
    pub primitive_text_editing: bool,
    pub indicator_text_editing: bool,
    pub chart_text_editing: bool,
    pub compare_settings_open: bool,
    pub compare_text_editing: bool,
    pub search_text_editing: bool,
    /// The settings modals that hold the inline text editors above.
    pub primitive_settings_open: bool,
    pub indicator_settings_open: bool,
    pub chart_settings_open: bool,
    /// The symbol, compare or indicator search overlay is open.
    pub search_overlay_open: bool,
}

/// The text fields a key can be applied to.
#[derive(Debug, Clone, Copy, PartialEq, Eq)]
pub enum TextField {
    ProfileRename,
    NewPassphrase,
    NewProfileName,
    RecoveryKey,
    ConfirmPassphrase,
    ChartBrowserSearch,
    WatchlistSearch,
    WatchlistGroupName,
    PresetName,
    PrimitiveTemplateName,
    IndicatorTemplateName,
    CompareTemplateName,
    ChartTemplateName,
    PrimitiveText,
    IndicatorText,
    ChartText,
    CompareText,
    SearchText,
}

/// Where a named key goes.
#[derive(Debug, Clone, Copy, PartialEq, Eq)]
pub enum KeyRoute {
    /// The profile manager is shown but none of its inputs is focused.
    Blocked,
    /// A paste into the focused Telegram bot-token field.
    TelegramTokenPaste,
    /// Apply the key to a text field.
    Field(TextField),
    /// Forward to the shared text-field store's hex color field.
    HexColor,
    /// Forward to the focused agent terminal.
    AgentPty,
    /// Forward to the agent chat input.
    AgentChat,
    Undo,
    Redo,
    /// Offer the key to the hovered order-flow panel.
    HoveredPanel,
}

/// The route of `key` under focus state `f`.
pub open spec fn key_route_of(f: KeyFocus, key: KeyPress) -> KeyRoute {
    if f.show_profile_manager && !f.new_passphrase_focused && !f.new_profile_name_focused
        && !f.recovery_key_display_focused && !f.confirm_passphrase_focused {
        KeyRoute::Blocked
    } else if f.alert_settings_open && key is Paste && f.tg_token_focused {
        KeyRoute::TelegramTokenPaste
    } else if f.user_settings_open && f.profile_rename_focused {
        KeyRoute::Field(TextField::ProfileRename)
    } else if (f.user_settings_open || f.show_welcome_wizard || f.needs_vault_unlock
        || f.show_profile_manager) && f.new_passphrase_focused {
        KeyRoute::Field(TextField::NewPassphrase)
    } else if (f.user_settings_open || f.show_profile_manager || f.show_welcome_wizard)
        && f.new_profile_name_focused {
        KeyRoute::Field(TextField::NewProfileName)
    } else if f.show_profile_manager && f.recovery_key_display_focused {
        KeyRoute::Field(TextField::RecoveryKey)
    } else if (f.show_profile_manager || f.show_welcome_wizard) && f.confirm_passphrase_focused {
        KeyRoute::Field(TextField::ConfirmPassphrase)
    } else if f.hex_color_focused {
        KeyRoute::HexColor
    } else if f.agent_pty_focused {
        KeyRoute::AgentPty
    } else if f.agent_chat_focused {
        KeyRoute::AgentChat
    } else if key is Undo {
        KeyRoute::Undo
    } else if key is Redo {
        KeyRoute::Redo
    } else if f.chart_browser_open {
        KeyRoute::Field(TextField::ChartBrowserSearch)
    } else if f.watchlist_overview_open {
        KeyRoute::Field(TextField::WatchlistSearch)
    } else if f.wl_group_name_open {
        KeyRoute::Field(TextField::WatchlistGroupName)
    } else if f.preset_name_open {
        KeyRoute::Field(TextField::PresetName)
    } else if f.primitive_template_naming {
        KeyRoute::Field(TextField::PrimitiveTemplateName)
    } else if f.indicator_template_naming {
        KeyRoute::Field(TextField::IndicatorTemplateName)
    } else if f.compare_template_naming {
        KeyRoute::Field(TextField::CompareTemplateName)
    } else if f.chart_template_naming {
        KeyRoute::Field(TextField::ChartTemplateName)
    } else if f.primitive_text_editing {
        KeyRoute::Field(TextField::PrimitiveText)
    } else if f.indicator_text_editing {
        KeyRoute::Field(TextField::IndicatorText)
    } else if f.chart_text_editing {
        KeyRoute::Field(TextField::ChartText)
    } else if f.compare_settings_open && f.compare_text_editing {
        KeyRoute::Field(TextField::CompareText)
    } else if f.search_text_editing {
        KeyRoute::Field(TextField::SearchText)
    } else {
        KeyRoute::HoveredPanel
    }
}

impl KeyFocus {
    /// Decide where a named key goes.
    pub fn key_route(&self, key: &KeyPress) -> (r: KeyRoute)
        ensures
            r == key_route_of(*self, *key),
    {
        let f = self;
        if f.show_profile_manager && !f.new_passphrase_focused && !f.new_profile_name_focused
            && !f.recovery_key_display_focused && !f.confirm_passphrase_focused {
            return KeyRoute::Blocked;
        }
        let is_paste = match key {
            KeyPress::Paste(_) => true,
            _ => false,
        };
        if f.alert_settings_open && is_paste && f.tg_token_focused {
            return KeyRoute::TelegramTokenPaste;
        }
        if f.user_settings_open && f.profile_rename_focused {
            return KeyRoute::Field(TextField::ProfileRename);
        }
        if (f.user_settings_open || f.show_welcome_wizard || f.needs_vault_unlock
            || f.show_profile_manager) && f.new_passphrase_focused {
            return KeyRoute::Field(TextField::NewPassphrase);
        }
        if (f.user_settings_open || f.show_profile_manager || f.show_welcome_wizard)
            && f.new_profile_name_focused {
            return KeyRoute::Field(TextField::NewProfileName);
        }
        if f.show_profile_manager && f.recovery_key_display_focused {
            return KeyRoute::Field(TextField::RecoveryKey);
        }
        if (f.show_profile_manager || f.show_welcome_wizard) && f.confirm_passphrase_focused {
            return KeyRoute::Field(TextField::ConfirmPassphrase);
        }
        if f.hex_color_focused {
            return KeyRoute::HexColor;
        }
        if f.agent_pty_focused {
            return KeyRoute::AgentPty;
        }
        if f.agent_chat_focused {
            return KeyRoute::AgentChat;
        }
        match key {
            KeyPress::Undo => {
                return KeyRoute::Undo;
            },
            KeyPress::Redo => {
                return KeyRoute::Redo;
            },
            _ => {},
        }
        if f.chart_browser_open {
            KeyRoute::Field(TextField::ChartBrowserSearch)
        } else if f.watchlist_overview_open {
            KeyRoute::Field(TextField::WatchlistSearch)
        } else if f.wl_group_name_open {
            KeyRoute::Field(TextField::WatchlistGroupName)
        } else if f.preset_name_open {
            KeyRoute::Field(TextField::PresetName)
        } else if f.primitive_template_naming {
            KeyRoute::Field(TextField::PrimitiveTemplateName)
        } else if f.indicator_template_naming {
            KeyRoute::Field(TextField::IndicatorTemplateName)
        } else if f.compare_template_naming {
            KeyRoute::Field(TextField::CompareTemplateName)
        } else if f.chart_template_naming {
            KeyRoute::Field(TextField::ChartTemplateName)
        } else if f.primitive_text_editing {
            KeyRoute::Field(TextField::PrimitiveText)
        } else if f.indicator_text_editing {
            KeyRoute::Field(TextField::IndicatorText)
        } else if f.chart_text_editing {
            KeyRoute::Field(TextField::ChartText)
        } else if f.compare_settings_open && f.compare_text_editing {
            KeyRoute::Field(TextField::CompareText)
        } else if f.search_text_editing {
            KeyRoute::Field(TextField::SearchText)
        } else {
            KeyRoute::HoveredPanel
        }
    }
}

/// While the profile manager is shown with none of its inputs focused,
/// every key is swallowed, Undo and Redo included.
pub proof fn law_profile_manager_blocks_keys(f: KeyFocus, key: KeyPress)
    requires
        f.show_profile_manager,
        !f.new_passphrase_focused,
        !f.new_profile_name_focused,
        !f.recovery_key_display_focused,
        !f.confirm_passphrase_focused,
    ensures
        key_route_of(f, key) == KeyRoute::Blocked,
{
}

/// Where a typed character goes.
#[derive(Debug, Clone, Copy, PartialEq, Eq)]
pub enum CharRoute {
    /// The profile manager is shown but none of its inputs is focused.
    Blocked,
    /// Edit a text field with the character.
    Field(TextField),
    /// Forward to the shared text-field store's hex color field.
    HexColor,
    /// Forward to the focused agent terminal.
    AgentPty,
    /// Forward to the agent chat input.
    AgentChat,
    /// Edit the Telegram bot-token buffer of the alert settings.
    TelegramToken,
    /// Edit the query of the open search overlay.
    SearchQuery,
    /// No field takes the character.
    Ignored,
}

/// The route of a typed character under focus state `f`. The order differs
/// from that of named keys: the modal search fields and the store fields
/// come first, and a settings modal's editor takes characters only while
/// that modal is open.
pub open spec fn char_route_of(f: KeyFocus) -> CharRoute {
    if f.show_profile_manager && !f.new_passphrase_focused && !f.new_profile_name_focused
        && !f.recovery_key_display_focused && !f.confirm_passphrase_focused {
        CharRoute::Blocked
    } else if f.chart_browser_open {
        CharRoute::Field(TextField::ChartBrowserSearch)
    } else if f.watchlist_overview_open {
        CharRoute::Field(TextField::WatchlistSearch)
    } else if f.hex_color_focused {
        CharRoute::HexColor
    } else if f.agent_pty_focused {
        CharRoute::AgentPty
    } else if f.agent_chat_focused {
        CharRoute::AgentChat
    } else if f.preset_name_open {
        CharRoute::Field(TextField::PresetName)
    } else if (f.user_settings_open || f.show_welcome_wizard || f.needs_vault_unlock
        || f.show_profile_manager) && f.new_passphrase_focused {
        CharRoute::Field(TextField::NewPassphrase)
    } else if f.show_profile_manager && f.recovery_key_display_focused {
        CharRoute::Field(TextField::RecoveryKey)
    } else if (f.show_profile_manager || f.show_welcome_wizard) && f.confirm_passphrase_focused {
        CharRoute::Field(TextField::ConfirmPassphrase)
    } else if f.user_settings_open && f.profile_rename_focused {
        CharRoute::Field(TextField::ProfileRename)
    } else if (f.user_settings_open || f.show_profile_manager || f.show_welcome_wizard)
        && f.new_profile_name_focused {
        CharRoute::Field(TextField::NewProfileName)
    } else if f.wl_group_name_open {
        CharRoute::Field(TextField::WatchlistGroupName)
    } else if f.primitive_settings_open && f.primitive_text_editing {
        CharRoute::Field(TextField::PrimitiveText)
    } else if f.indicator_settings_open && f.indicator_text_editing {
        CharRoute::Field(TextField::IndicatorText)
    } else if f.chart_settings_open && f.chart_text_editing {
        CharRoute::Field(TextField::ChartText)
    } else if f.compare_settings_open && f.compare_text_editing {
        CharRoute::Field(TextField::CompareText)
    } else if f.alert_settings_open && f.tg_token_focused {
        CharRoute::TelegramToken
    } else if f.search_overlay_open {
        CharRoute::SearchQuery
    } else {
        CharRoute::Ignored
    }
}

impl KeyFocus {
    /// Decide where a typed character goes.
    pub fn char_route(&self) -> (r: CharRoute)
        ensures
            r == char_route_of(*self),
    {
        let f = self;
        if f.show_profile_manager && !f.new_passphrase_focused && !f.new_profile_name_focused
            && !f.recovery_key_display_focused && !f.confirm_passphrase_focused {
            CharRoute::Blocked
        } else if f.chart_browser_open {
            CharRoute::Field(TextField::ChartBrowserSearch)
        } else if f.watchlist_overview_open {
            CharRoute::Field(TextField::WatchlistSearch)
        } else if f.hex_color_focused {
            CharRoute::HexColor
        } else if f.agent_pty_focused {
            CharRoute::AgentPty
        } else if f.agent_chat_focused {
            CharRoute::AgentChat
        } else if f.preset_name_open {
            CharRoute::Field(TextField::PresetName)
        } else if (f.user_settings_open || f.show_welcome_wizard || f.needs_vault_unlock
            || f.show_profile_manager) && f.new_passphrase_focused {
            CharRoute::Field(TextField::NewPassphrase)
        } else if f.show_profile_manager && f.recovery_key_display_focused {
            CharRoute::Field(TextField::RecoveryKey)
        } else if (f.show_profile_manager || f.show_welcome_wizard)
            && f.confirm_passphrase_focused {
            CharRoute::Field(TextField::ConfirmPassphrase)
        } else if f.user_settings_open && f.profile_rename_focused {
            CharRoute::Field(TextField::ProfileRename)
        } else if (f.user_settings_open || f.show_profile_manager || f.show_welcome_wizard)
            && f.new_profile_name_focused {
            CharRoute::Field(TextField::NewProfileName)
        } else if f.wl_group_name_open {
            CharRoute::Field(TextField::WatchlistGroupName)
        } else if f.primitive_settings_open && f.primitive_text_editing {
            CharRoute::Field(TextField::PrimitiveText)
        } else if f.indicator_settings_open && f.indicator_text_editing {
            CharRoute::Field(TextField::IndicatorText)
        } else if f.chart_settings_open && f.chart_text_editing {
            CharRoute::Field(TextField::ChartText)
        } else if f.compare_settings_open && f.compare_text_editing {
            CharRoute::Field(TextField::CompareText)
        } else if f.alert_settings_open && f.tg_token_focused {
            CharRoute::TelegramToken
        } else if f.search_overlay_open {
            CharRoute::SearchQuery
        } else {
            CharRoute::Ignored
        }
    }
}

/// Named keys and typed characters are blocked in exactly the same focus
/// states, whatever the key.
pub proof fn law_keys_and_chars_blocked_alike(f: KeyFocus, key: KeyPress)
    ensures
        (key_route_of(f, key) == KeyRoute::Blocked) <==> (char_route_of(f) == CharRoute::Blocked),
{
}

/// Focus state of the fields a copy can take text from.
#[derive(Debug, Clone, Copy, PartialEq, Eq)]
pub struct CopyFocus {
    /// The shared text-field store (hex color, agent terminal, agent chat)
    /// has a selection.
    pub store_has_selection: bool,
    pub chart_browser_open: bool,
    pub wl_group_name_open: bool,
    pub preset_name_open: bool,
    pub primitive_text_editing: bool,
    pub indicator_text_editing: bool,
    pub chart_text_editing: bool,
    pub watchlist_overview_open: bool,
    pub search_text_editing: bool,
    /// The profile fields that currently have a non-empty selection.
    pub new_passphrase_selected: bool,
    pub new_profile_name_selected: bool,
    pub recovery_key_selected: bool,
    pub confirm_passphrase_selected: bool,
    pub profile_rename_selected: bool,
}

/// The source a copy takes its text from.
#[derive(Debug, Clone, Copy, PartialEq, Eq)]
pub enum CopyRoute {
    /// The shared text-field store's selection.
    Store,
    /// The selection of a text field, which may be empty.
    Field(TextField),
    /// Nothing to copy.
    Nothing,
}

/// The first applicable source: the store when it has a selection, then the
/// open modal's field (whatever its selection), then the first profile
/// field that has a selection.
pub open spec fn copy_route_of(f: CopyFocus) -> CopyRoute {
    if f.store_has_selection {
        CopyRoute::Store
    } else if f.chart_browser_open {
        CopyRoute::Field(TextField::ChartBrowserSearch)
    } else if f.wl_group_name_open {
        CopyRoute::Field(TextField::WatchlistGroupName)
    } else if f.preset_name_open {
        CopyRoute::Field(TextField::PresetName)
    } else if f.primitive_text_editing {
        CopyRoute::Field(TextField::PrimitiveText)
    } else if f.indicator_text_editing {
        CopyRoute::Field(TextField::IndicatorText)
    } else if f.chart_text_editing {
        CopyRoute::Field(TextField::ChartText)
    } else if f.watchlist_overview_open {
        CopyRoute::Field(TextField::WatchlistSearch)
    } else if f.search_text_editing {
        CopyRoute::Field(TextField::SearchText)
    } else if f.new_passphrase_selected {
        CopyRoute::Field(TextField::NewPassphrase)
    } else if f.new_profile_name_selected {
        CopyRoute::Field(TextField::NewProfileName)
    } else if f.recovery_key_selected {
        CopyRoute::Field(TextField::RecoveryKey)
    } else if f.confirm_passphrase_selected {
        CopyRoute::Field(TextField::ConfirmPassphrase)
    } else if f.profile_rename_selected {
        CopyRoute::Field(TextField::ProfileRename)
    } else {
        CopyRoute::Nothing
    }
}

impl CopyFocus {
    /// Decide where the text of a copy (Ctrl+C) comes from.
    pub fn copy_route(&self) -> (r: CopyRoute)
        ensures
            r == copy_route_of(*self),
    {
        if self.store_has_selection {
            CopyRoute::Store
        } else if self.chart_browser_open {
            CopyRoute::Field(TextField::ChartBrowserSearch)
        } else if self.wl_group_name_open {
            CopyRoute::Field(TextField::WatchlistGroupName)
        } else if self.preset_name_open {
            CopyRoute::Field(TextField::PresetName)
        } else if self.primitive_text_editing {
            CopyRoute::Field(TextField::PrimitiveText)
        } else if self.indicator_text_editing {
            CopyRoute::Field(TextField::IndicatorText)
        } else if self.chart_text_editing {
            CopyRoute::Field(TextField::ChartText)
        } else if self.watchlist_overview_open {
            CopyRoute::Field(TextField::WatchlistSearch)
        } else if self.search_text_editing {
            CopyRoute::Field(TextField::SearchText)
        } else if self.new_passphrase_selected {
            CopyRoute::Field(TextField::NewPassphrase)
        } else if self.new_profile_name_selected {
            CopyRoute::Field(TextField::NewProfileName)
        } else if self.recovery_key_selected {
            CopyRoute::Field(TextField::RecoveryKey)
        } else if self.confirm_passphrase_selected {
            CopyRoute::Field(TextField::ConfirmPassphrase)
        } else if self.profile_rename_selected {
            CopyRoute::Field(TextField::ProfileRename)
        } else {
            CopyRoute::Nothing
        }
    }
}

/// No field focused, no modal or editor open.
pub open spec fn idle_key_focus() -> KeyFocus {
    KeyFocus {
        show_profile_manager: false,
        show_welcome_wizard: false,
        needs_vault_unlock: false,
        user_settings_open: false,
        new_passphrase_focused: false,
        new_profile_name_focused: false,
        recovery_key_display_focused: false,
        confirm_passphrase_focused: false,
        profile_rename_focused: false,
        alert_settings_open: false,
        tg_token_focused: false,
        hex_color_focused: false,
        agent_pty_focused: false,
        agent_chat_focused: false,
        chart_browser_open: false,
        watchlist_overview_open: false,
        wl_group_name_open: false,
        preset_name_open: false,
        primitive_template_naming: false,
        indicator_template_naming: false,
        compare_template_naming: false,
        chart_template_naming: false,
        primitive_text_editing: false,
        indicator_text_editing: false,
        chart_text_editing: false,
        compare_settings_open: false,
        compare_text_editing: false,
        search_text_editing: false,
        primitive_settings_open: false,
        indicator_settings_open: false,
        chart_settings_open: false,
        search_overlay_open: false,
    }
}

/// The focus state in which field `t` alone takes keys: the flags that
/// open and focus that field and nothing else.
pub open spec fn focus_on(t: TextField) -> KeyFocus {
    let i = idle_key_focus();
    match t {
        TextField::ProfileRename => KeyFocus { user_settings_open: true, profile_rename_focused: true, ..i },
        TextField::NewPassphrase => KeyFocus { user_settings_open: true, new_passphrase_focused: true, ..i },
        TextField::NewProfileName => KeyFocus { user_settings_open: true, new_profile_name_focused: true, ..i },
        TextField::RecoveryKey => KeyFocus { show_profile_manager: true, recovery_key_display_focused: true, ..i },
        TextField::ConfirmPassphrase => KeyFocus { show_welcome_wizard: true, confirm_passphrase_focused: true, ..i },
        TextField::ChartBrowserSearch => KeyFocus { chart_browser_open: true, ..i },
        TextField::WatchlistSearch => KeyFocus { watchlist_overview_open: true, ..i },
        TextField::WatchlistGroupName => KeyFocus { wl_group_name_open: true, ..i },
        TextField::PresetName => KeyFocus { preset_name_open: true, ..i },
        TextField::PrimitiveTemplateName => KeyFocus { primitive_template_naming: true, ..i },
        TextField::IndicatorTemplateName => KeyFocus { indicator_template_naming: true, ..i },
        TextField::CompareTemplateName => KeyFocus { compare_template_naming: true, ..i },
        TextField::ChartTemplateName => KeyFocus { chart_template_naming: true, ..i },
        TextField::PrimitiveText => KeyFocus { primitive_settings_open: true, primitive_text_editing: true, ..i },
        TextField::IndicatorText => KeyFocus { indicator_settings_open: true, indicator_text_editing: true, ..i },
        TextField::ChartText => KeyFocus { chart_settings_open: true, chart_text_editing: true, ..i },
        TextField::CompareText => KeyFocus { compare_settings_open: true, compare_text_editing: true, ..i },
        TextField::SearchText => KeyFocus { search_overlay_open: true, search_text_editing: true, ..i },
    }
}

/// The profile and passphrase inputs, which take keys ahead of the history.
pub open spec fn is_profile_field(t: TextField) -> bool {
    match t {
        TextField::ProfileRename | TextField::NewPassphrase | TextField::NewProfileName
        | TextField::RecoveryKey | TextField::ConfirmPassphrase => true,
        _ => false,
    }
}

/// Each text field, when it alone is open and focused, takes every named
/// key but Undo and Redo, which go to the history (the profile and
/// passphrase inputs take those too); with nothing focused
/// the key is offered to the hovered panel; the hex colour field and the
/// agent terminal and chat inputs take every key, Undo and Redo included.
pub proof fn law_each_field_takes_its_keys(t: TextField, key: KeyPress)
    ensures
        is_profile_field(t) || (!(key is Undo) && !(key is Redo)) ==> key_route_of(focus_on(t), key)
            == KeyRoute::Field(t),
        !is_profile_field(t) && key is Undo ==> key_route_of(focus_on(t), key) == KeyRoute::Undo,
        !is_profile_field(t) && key is Redo ==> key_route_of(focus_on(t), key) == KeyRoute::Redo,
        !(key is Undo) && !(key is Redo) ==> key_route_of(idle_key_focus(), key) == KeyRoute::HoveredPanel,
        key_route_of(KeyFocus { hex_color_focused: true, ..idle_key_focus() }, key) == KeyRoute::HexColor,
        key_route_of(KeyFocus { agent_pty_focused: true, ..idle_key_focus() }, key) == KeyRoute::AgentPty,
        key_route_of(KeyFocus { agent_chat_focused: true, ..idle_key_focus() }, key) == KeyRoute::AgentChat,
{
}

/// Typed characters go to the same field as named keys when it alone is
/// open and focused (the search overlay's characters edit its query), and
/// nowhere when nothing is.
pub proof fn law_each_field_takes_its_chars(t: TextField)
    ensures
        !(t is PrimitiveTemplateName) && !(t is IndicatorTemplateName) && !(t is CompareTemplateName)
            && !(t is ChartTemplateName) && !(t is SearchText) ==> char_route_of(focus_on(t))
            == CharRoute::Field(t),
        t is SearchText ==> char_route_of(focus_on(t)) == CharRoute::SearchQuery,
        char_route_of(idle_key_focus()) == CharRoute::Ignored,
        char_route_of(KeyFocus { hex_color_focused: true, ..idle_key_focus() }) == CharRoute::HexColor,
        char_route_of(KeyFocus { agent_pty_focused: true, ..idle_key_focus() }) == CharRoute::AgentPty,
        char_route_of(KeyFocus { agent_chat_focused: true, ..idle_key_focus() }) == CharRoute::AgentChat,
{
}

/// Different fields receive the keys of different focus states: the
/// routing names the field that is focused, never another.
pub proof fn law_key_route_names_focused_field(t: TextField, u: TextField, key: KeyPress)
    requires
        !(key is Undo),
        !(key is Redo),
        key_route_of(focus_on(t), key) == KeyRoute::Field(u),
    ensures
        t == u,
{
    law_each_field_takes_its_keys(t, key);
}

/// No copy source is active.
pub open spec fn idle_copy_focus() -> CopyFocus {
    CopyFocus {
        store_has_selection: false,
        chart_browser_open: false,
        wl_group_name_open: false,
        preset_name_open: false,
        primitive_text_editing: false,
        indicator_text_editing: false,
        chart_text_editing: false,
        watchlist_overview_open: false,
        search_text_editing: false,
        new_passphrase_selected: false,
        new_profile_name_selected: false,
        recovery_key_selected: false,
        confirm_passphrase_selected: false,
        profile_rename_selected: false,
    }
}

/// The copy state in which field `t` alone is a copy source, for the
/// fields a copy can read.
pub open spec fn copy_from_only(t: TextField) -> Option<CopyFocus> {
    let i = idle_copy_focus();
    match t {
        TextField::ChartBrowserSearch => Some(CopyFocus { chart_browser_open: true, ..i }),
        TextField::WatchlistGroupName => Some(CopyFocus { wl_group_name_open: true, ..i }),
        TextField::PresetName => Some(CopyFocus { preset_name_open: true, ..i }),
        TextField::PrimitiveText => Some(CopyFocus { primitive_text_editing: true, ..i }),
        TextField::IndicatorText => Some(CopyFocus { indicator_text_editing: true, ..i }),
        TextField::ChartText => Some(CopyFocus { chart_text_editing: true, ..i }),
        TextField::WatchlistSearch => Some(CopyFocus { watchlist_overview_open: true, ..i }),
        TextField::SearchText => Some(CopyFocus { search_text_editing: true, ..i }),
        TextField::NewPassphrase => Some(CopyFocus { new_passphrase_selected: true, ..i }),
        TextField::NewProfileName => Some(CopyFocus { new_profile_name_selected: true, ..i }),
        TextField::RecoveryKey => Some(CopyFocus { recovery_key_selected: true, ..i }),
        TextField::ConfirmPassphrase => Some(CopyFocus { confirm_passphrase_selected: true, ..i }),
        TextField::ProfileRename => Some(CopyFocus { profile_rename_selected: true, ..i }),
        _ => None,
    }
}

/// Some copy source is active.
pub open spec fn any_copy_source(f: CopyFocus) -> bool {
    f.store_has_selection || f.chart_browser_open || f.wl_group_name_open || f.preset_name_open
        || f.primitive_text_editing || f.indicator_text_editing || f.chart_text_editing
        || f.watchlist_overview_open || f.search_text_editing || f.new_passphrase_selected
        || f.new_profile_name_selected || f.recovery_key_selected || f.confirm_passphrase_selected
        || f.profile_rename_selected
}

/// A copy takes the store's selection whenever it has one; each field that
/// alone is a copy source is the one copied from; and a copy copies
/// nothing exactly when no source is active.
pub proof fn law_copy_takes_the_active_source(f: CopyFocus, t: TextField)
    ensures
        f.store_has_selection ==> copy_route_of(f) == CopyRoute::Store,
        copy_from_only(t) matches Some(g) ==> copy_route_of(g) == CopyRoute::Field(t),
        (copy_route_of(f) == CopyRoute::Nothing) <==> !any_copy_source(f),
{
}

} // verus!
