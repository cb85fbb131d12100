//! Which modal, overlay or editing state a dismissal closes.

use vstd::prelude::*;
use crate::strings::{chars_of, chars_eq};

verus! {

/// Open/closed state of the modals and the in-modal text editors, in the
/// order in which Escape dismisses them.
#[derive(Debug, Clone, Copy, PartialEq, Eq)]
pub struct ModalFlags {
    pub chart_browser_open: bool,
    pub tags_tabs_open: bool,
    pub wl_group_name_open: bool,
    pub preset_name_open: bool,
    pub primitive_text_editing: bool,
    pub indicator_text_editing: bool,
    pub chart_text_editing: bool,
    pub search_modal_open: bool,
    pub context_menu_open: bool,
    pub sync_color_grid_open: bool,
    pub primitive_settings_open: bool,
    pub chart_settings_open: bool,
    pub indicator_settings_open: bool,
    pub alert_settings_open: bool,
    pub compare_settings_open: bool,
}

/// What one press of Escape does.
#[derive(Debug, Clone, Copy, PartialEq, Eq)]
pub enum EscapeAction {
    CloseChartBrowser,
    CloseTagsTabs,
    CloseWatchlistGroupName,
    ClosePresetName,
    CancelPrimitiveTextEdit,
    CancelIndicatorTextEdit,
    CancelChartTextEdit,
    CloseSearchModal,
    CloseContextMenu,
    CloseSyncColorGrid,
    ClosePrimitiveSettings,
    CloseChartSettings,
    CloseIndicatorSettings,
    CloseAlertSettings,
    CloseCompareSettings,
    /// Nothing was open: deselect the drawing tool.
    DeselectTool,
}

/// The layer Escape dismisses: the first open one in priority order, text
/// editing before the modal that holds it.
pub open spec fn escape_action_of(f: ModalFlags) -> EscapeAction {
    if f.chart_browser_open {
        EscapeAction::CloseChartBrowser
    } else if f.tags_tabs_open {
        EscapeAction::CloseTagsTabs
    } else if f.wl_group_name_open {
        EscapeAction::CloseWatchlistGroupName
    } else if f.preset_name_open {
        EscapeAction::ClosePresetName
    } else if f.primitive_text_editing {
        EscapeAction::CancelPrimitiveTextEdit
    } else if f.indicator_text_editing {
        EscapeAction::CancelIndicatorTextEdit
    } else if f.chart_text_editing {
        EscapeAction::CancelChartTextEdit
    } else if f.search_modal_open {
        EscapeAction::CloseSearchModal
    } else if f.context_menu_open {
        EscapeAction::CloseContextMenu
    } else if f.sync_color_grid_open {
        EscapeAction::CloseSyncColorGrid
    } else if f.primitive_settings_open {
        EscapeAction::ClosePrimitiveSettings
    } else if f.chart_settings_open {
        EscapeAction::CloseChartSettings
    } else if f.indicator_settings_open {
        EscapeAction::CloseIndicatorSettings
    } else if f.alert_settings_open {
        EscapeAction::CloseAlertSettings
    } else if f.compare_settings_open {
        EscapeAction::CloseCompareSettings
    } else {
        EscapeAction::DeselectTool
    }
}

/// The flags after `a` has been carried out: exactly the dismissed layer is
/// cleared.
pub open spec fn after_escape(f: ModalFlags, a: EscapeAction) -> ModalFlags {
    match a {
        EscapeAction::CloseChartBrowser => ModalFlags { chart_browser_open: false, ..f },
        EscapeAction::CloseTagsTabs => ModalFlags { tags_tabs_open: false, ..f },
        EscapeAction::CloseWatchlistGroupName => ModalFlags { wl_group_name_open: false, ..f },
        EscapeAction::ClosePresetName => ModalFlags { preset_name_open: false, ..f },
        EscapeAction::CancelPrimitiveTextEdit => ModalFlags { primitive_text_editing: false, ..f },
        EscapeAction::CancelIndicatorTextEdit => ModalFlags { indicator_text_editing: false, ..f },
        EscapeAction::CancelChartTextEdit => ModalFlags { chart_text_editing: false, ..f },
        EscapeAction::CloseSearchModal => ModalFlags { search_modal_open: false, ..f },
        EscapeAction::CloseContextMenu => ModalFlags { context_menu_open: false, ..f },
        EscapeAction::CloseSyncColorGrid => ModalFlags { sync_color_grid_open: false, ..f },
        EscapeAction::ClosePrimitiveSettings => ModalFlags { primitive_settings_open: false, ..f },
        EscapeAction::CloseChartSettings => ModalFlags { chart_settings_open: false, ..f },
        EscapeAction::CloseIndicatorSettings => ModalFlags { indicator_settings_open: false, ..f },
        EscapeAction::CloseAlertSettings => ModalFlags { alert_settings_open: false, ..f },
        EscapeAction::CloseCompareSettings => ModalFlags { compare_settings_open: false, ..f },
        EscapeAction::DeselectTool => f,
    }
}

/// Nothing is open.
pub open spec fn all_closed(f: ModalFlags) -> bool {
    !f.chart_browser_open && !f.tags_tabs_open && !f.wl_group_name_open && !f.preset_name_open
        && !f.primitive_text_editing && !f.indicator_text_editing && !f.chart_text_editing
        && !f.search_modal_open && !f.context_menu_open && !f.sync_color_grid_open
        && !f.primitive_settings_open && !f.chart_settings_open && !f.indicator_settings_open
        && !f.alert_settings_open && !f.compare_settings_open
}

/// The flags in Escape priority order.
pub open spec fn flags_of(f: ModalFlags) -> Seq<bool> {
    seq![
        f.chart_browser_open,
        f.tags_tabs_open,
        f.wl_group_name_open,
        f.preset_name_open,
        f.primitive_text_editing,
        f.indicator_text_editing,
        f.chart_text_editing,
        f.search_modal_open,
        f.context_menu_open,
        f.sync_color_grid_open,
        f.primitive_settings_open,
        f.chart_settings_open,
        f.indicator_settings_open,
        f.alert_settings_open,
        f.compare_settings_open,
    ]
}

/// The number of `true` entries of `s`.
pub open spec fn count_true(s: Seq<bool>) -> nat
    decreases s.len(),
{
    if s.len() == 0 {
        0
    } else {
        count_true(s.drop_last()) + if s.last() {
            1nat
        } else {
            0nat
        }
    }
}

/// The number of open layers.
pub open spec fn open_count(f: ModalFlags) -> nat {
    count_true(flags_of(f))
}

/// Clearing a set entry lowers the count by one.
proof fn lemma_count_clear(s: Seq<bool>, k: int)
    requires
        0 <= k < s.len(),
        s[k],
    ensures
        count_true(s.update(k, false)) + 1 == count_true(s),
    decreases s.len(),
{
    let u = s.update(k, false);
    if k == s.len() - 1 {
        assert(u.drop_last() =~= s.drop_last());
    } else {
        lemma_count_clear(s.drop_last(), k);
        assert(u.drop_last() =~= s.drop_last().update(k, false));
    }
}

impl ModalFlags {
    /// Carry out one Escape press: dismiss the highest-priority open layer,
    /// or report that nothing was open so the drawing tool is deselected.
    pub fn escape(&mut self) -> (a: EscapeAction)
        ensures
            a == escape_action_of(*old(self)),
            *final(self) == after_escape(*old(self), a),
    {
        if self.chart_browser_open {
            self.chart_browser_open = false;
            EscapeAction::CloseChartBrowser
        } else if self.tags_tabs_open {
            self.tags_tabs_open = false;
            EscapeAction::CloseTagsTabs
        } else if self.wl_group_name_open {
            self.wl_group_name_open = false;
            EscapeAction::CloseWatchlistGroupName
        } else if self.preset_name_open {
            self.preset_name_open = false;
            EscapeAction::ClosePresetName
        } else if self.primitive_text_editing {
            self.primitive_text_editing = false;
            EscapeAction::CancelPrimitiveTextEdit
        } else if self.indicator_text_editing {
            self.indicator_text_editing = false;
            EscapeAction::CancelIndicatorTextEdit
        } else if self.chart_text_editing {
            self.chart_text_editing = false;
            EscapeAction::CancelChartTextEdit
        } else if self.search_modal_open {
            self.search_modal_open = false;
            EscapeAction::CloseSearchModal
        } else if self.context_menu_open {
            self.context_menu_open = false;
            EscapeAction::CloseContextMenu
        } else if self.sync_color_grid_open {
            self.sync_color_grid_open = false;
            EscapeAction::CloseSyncColorGrid
        } else if self.primitive_settings_open {
            self.primitive_settings_open = false;
            EscapeAction::ClosePrimitiveSettings
        } else if self.chart_settings_open {
            self.chart_settings_open = false;
            EscapeAction::CloseChartSettings
        } else if self.indicator_settings_open {
            self.indicator_settings_open = false;
            EscapeAction::CloseIndicatorSettings
        } else if self.alert_settings_open {
            self.alert_settings_open = false;
            EscapeAction::CloseAlertSettings
        } else if self.compare_settings_open {
            self.compare_settings_open = false;
            EscapeAction::CloseCompareSettings
        } else {
            EscapeAction::DeselectTool
        }
    }
}

/// Each Escape closes exactly one open layer, so as many presses as there
/// are open layers close everything, and one press with nothing open only
/// deselects the drawing tool.
#[verifier::rlimit(60)]
#[verifier::spinoff_prover]
pub proof fn law_escape_closes_one_layer(f: ModalFlags)
    ensures
        all_closed(f) <==> escape_action_of(f) == EscapeAction::DeselectTool,
        !all_closed(f) ==> open_count(after_escape(f, escape_action_of(f))) + 1 == open_count(f),
        all_closed(f) ==> after_escape(f, escape_action_of(f)) == f,
{
    let a = escape_action_of(f);
    let g = after_escape(f, a);
    let s = flags_of(f);
    if f.chart_browser_open {
        assert(flags_of(g) =~= s.update(0, false));
        lemma_count_clear(s, 0);
    } else if f.tags_tabs_open {
        assert(flags_of(g) =~= s.update(1, false));
        lemma_count_clear(s, 1);
    } else if f.wl_group_name_open {
        assert(flags_of(g) =~= s.update(2, false));
        lemma_count_clear(s, 2);
    } else if f.preset_name_open {
        assert(flags_of(g) =~= s.update(3, false));
        lemma_count_clear(s, 3);
    } else if f.primitive_text_editing {
        assert(flags_of(g) =~= s.update(4, false));
        lemma_count_clear(s, 4);
    } else if f.indicator_text_editing {
        assert(flags_of(g) =~= s.update(5, false));
        lemma_count_clear(s, 5);
    } else if f.chart_text_editing {
        assert(flags_of(g) =~= s.update(6, false));
        lemma_count_clear(s, 6);
    } else if f.search_modal_open {
        assert(flags_of(g) =~= s.update(7, false));
        lemma_count_clear(s, 7);
    } else if f.context_menu_open {
        assert(flags_of(g) =~= s.update(8, false));
        lemma_count_clear(s, 8);
    } else if f.sync_color_grid_open {
        assert(flags_of(g) =~= s.update(9, false));
        lemma_count_clear(s, 9);
    } else if f.primitive_settings_open {
        assert(flags_of(g) =~= s.update(10, false));
        lemma_count_clear(s, 10);
    } else if f.chart_settings_open {
        assert(flags_of(g) =~= s.update(11, false));
        lemma_count_clear(s, 11);
    } else if f.indicator_settings_open {
        assert(flags_of(g) =~= s.update(12, false));
        lemma_count_clear(s, 12);
    } else if f.alert_settings_open {
        assert(flags_of(g) =~= s.update(13, false));
        lemma_count_clear(s, 13);
    } else if f.compare_settings_open {
        assert(flags_of(g) =~= s.update(14, false));
        lemma_count_clear(s, 14);
    }
}

// ---------------------------------------------------------------------------
// Modal layers registered with the input coordinator
// ---------------------------------------------------------------------------

/// What a click outside the topmost modal layer closes.
#[derive(Debug, Clone, Copy, PartialEq, Eq)]
pub enum LayerClose {
    /// Close the primitive-settings color picker one level (L2 to L1 to closed).
    PrimitiveColorPickerOneLevel,
    IndicatorColorPickerOneLevel,
    ChartColorPickerOneLevel,
    PanelColorPickerOneLevel,
    PrimitiveSettings,
    ChartSettings,
    IndicatorSettings,
    AlertSettings,
    SearchModal,
    OverlaySettings,
    TagsTabs,
    ChartBrowser,
    UserSettings,
    /// Return the profile manager to its list page and hide it.
    ProfileManager,
    /// The profile manager stays: a vault unlock is required first.
    KeepProfileManager,
    PresetNameInput,
    WatchlistGroupNameInput,
    WatchlistModal,
    /// Unknown layer: close every modal so the UI cannot get stuck.
    CloseAllModals,
}

/// The action for the topmost layer named `name`.
pub open spec fn layer_close_of(name: Seq<char>, needs_vault_unlock: bool) -> LayerClose {
    if name == "color_picker_primitive"@ {
        LayerClose::PrimitiveColorPickerOneLevel
    } else if name == "color_picker_indicator"@ {
        LayerClose::IndicatorColorPickerOneLevel
    } else if name == "color_picker_chart"@ {
        LayerClose::ChartColorPickerOneLevel
    } else if name == "color_picker_panel"@ {
        LayerClose::PanelColorPickerOneLevel
    } else if name == "primitive_settings"@ {
        LayerClose::PrimitiveSettings
    } else if name == "chart_settings"@ {
        LayerClose::ChartSettings
    } else if name == "indicator_settings"@ {
        LayerClose::IndicatorSettings
    } else if name == "alert_settings"@ {
        LayerClose::AlertSettings
    } else if name == "modal_search"@ {
        LayerClose::SearchModal
    } else if name == "overlay_settings"@ {
        LayerClose::OverlaySettings
    } else if name == "tags_tabs"@ {
        LayerClose::TagsTabs
    } else if name == "chart_browser"@ {
        LayerClose::ChartBrowser
    } else if name == "user_settings"@ {
        LayerClose::UserSettings
    } else if name == "profile_manager"@ {
        if needs_vault_unlock {
            LayerClose::KeepProfileManager
        } else {
            LayerClose::ProfileManager
        }
    } else if name == "preset_name_input"@ {
        LayerClose::PresetNameInput
    } else if name == "wl_group_name_input"@ {
        LayerClose::WatchlistGroupNameInput
    } else if name == "watchlist_modal"@ {
        LayerClose::WatchlistModal
    } else {
        LayerClose::CloseAllModals
    }
}

/// Decide what a click outside the topmost modal layer `name` closes.
pub fn layer_close_action(name: &str, needs_vault_unlock: bool) -> (r: LayerClose)
    ensures
        r == layer_close_of(name@, needs_vault_unlock),
{
    let n = chars_of(name);
    if chars_eq(&n, "color_picker_primitive") {
        LayerClose::PrimitiveColorPickerOneLevel
    } else if chars_eq(&n, "color_picker_indicator") {
        LayerClose::IndicatorColorPickerOneLevel
    } else if chars_eq(&n, "color_picker_chart") {
        LayerClose::ChartColorPickerOneLevel
    } else if chars_eq(&n, "color_picker_panel") {
        LayerClose::PanelColorPickerOneLevel
    } else if chars_eq(&n, "primitive_settings") {
        LayerClose::PrimitiveSettings
    } else if chars_eq(&n, "chart_settings") {
        LayerClose::ChartSettings
    } else if chars_eq(&n, "indicator_settings") {
        LayerClose::IndicatorSettings
    } else if chars_eq(&n, "alert_settings") {
        LayerClose::AlertSettings
    } else if chars_eq(&n, "modal_search") {
        LayerClose::SearchModal
    } else if chars_eq(&n, "overlay_settings") {
        LayerClose::OverlaySettings
    } else if chars_eq(&n, "tags_tabs") {
        LayerClose::TagsTabs
    } else if chars_eq(&n, "chart_browser") {
        LayerClose::ChartBrowser
    } else if chars_eq(&n, "user_settings") {
        LayerClose::UserSettings
    } else if chars_eq(&n, "profile_manager") {
        if needs_vault_unlock {
            LayerClose::KeepProfileManager
        } else {
            LayerClose::ProfileManager
        }
    } else if chars_eq(&n, "preset_name_input") {
        LayerClose::PresetNameInput
    } else if chars_eq(&n, "wl_group_name_input") {
        LayerClose::WatchlistGroupNameInput
    } else if chars_eq(&n, "watchlist_modal") {
        LayerClose::WatchlistModal
    } else {
        LayerClose::CloseAllModals
    }
}

// ---------------------------------------------------------------------------
// Right-click suppression
// ---------------------------------------------------------------------------

/// Modals whose presence stops right-clicks from opening a context menu.
#[derive(Debug, Clone, Copy, PartialEq, Eq)]
pub struct RightClickBlockers {
    pub search_modal_open: bool,
    pub watchlist_modal_open: bool,
    pub wl_group_name_open: bool,
    pub primitive_settings_open: bool,
    pub indicator_settings_open: bool,
    pub alert_settings_open: bool,
    pub compare_settings_open: bool,
    pub chart_settings_open: bool,
    pub preset_name_open: bool,
    pub chart_browser_open: bool,
    pub overlay_settings_open: bool,
    pub tags_tabs_open: bool,
}

/// Any modal is open, so a right-click must not reach the chart.
pub open spec fn right_click_blocked_of(b: RightClickBlockers) -> bool {
    b.search_modal_open || b.watchlist_modal_open || b.wl_group_name_open
        || b.primitive_settings_open || b.indicator_settings_open || b.alert_settings_open
        || b.compare_settings_open || b.chart_settings_open || b.preset_name_open
        || b.chart_browser_open || b.overlay_settings_open || b.tags_tabs_open
}

impl RightClickBlockers {
    /// Whether a right-click is swallowed because a modal is open.
    pub fn blocks_right_click(&self) -> (r: bool)
        ensures
            r == right_click_blocked_of(*self),
    {
        self.search_modal_open || self.watchlist_modal_open || self.wl_group_name_open
            || self.primitive_settings_open || self.indicator_settings_open
            || self.alert_settings_open || self.compare_settings_open || self.chart_settings_open
            || self.preset_name_open || self.chart_browser_open || self.overlay_settings_open
            || self.tags_tabs_open
    }
}

} // verus!
