//! What a click, double click or wheel turn on a registered widget asks
//! for: the widget id that the render pass registered (with its modal
//! prefix removed where the modal dispatches it) is mapped to an action,
//! which the application then carries out. The context menus' items and
//! commands are here too.

use vstd::prelude::*;
use crate::number::{spec_parse_u64, spec_parse_usize, parse_u64_str, parse_usize_str};
use crate::strings::{chars_of, chars_eq, strip_prefix_of, strip_prefix_chars};
use crate::widget_id::{
    starts_with, ends_with_after, matches_at, spec_agent_leaf_focus, agent_leaf_focus,
    spec_slot_focus_fields, slot_focus_fields,
};

verus! {

// ---------------------------------------------------------------------------
// Watchlist modal
// ---------------------------------------------------------------------------

/// Tabs of the watchlist modal.
#[derive(Debug, Clone, Copy, PartialEq, Eq)]
pub enum WatchlistTab {
    Overview,
    Groups,
    Settings,
}

/// What a click in the watchlist modal does.
#[derive(Debug, Clone, PartialEq, Eq)]
pub enum WatchlistModalAction {
    Close,
    /// The backdrop, the header drag zone or the list scroll zone: swallowed.
    Absorb,
    /// Put the search cursor where the click landed.
    SearchInput,
    SwitchTab(WatchlistTab),
    /// Load the symbol of the composite key on the active chart.
    OpenSymbol(String),
    /// Remove the symbol of the composite key from the active list.
    RemoveSymbol(String),
    SelectGroup(u64),
    DeleteGroup(u64),
    /// Open the name input for a new group.
    AddGroup,
    RenameGroup(u64),
    /// Nothing to do.
    Ignored,
}

/// [`WatchlistModalAction`] with its texts as character sequences.
pub enum WatchlistModalActionView {
    Close,
    Absorb,
    SearchInput,
    SwitchTab(WatchlistTab),
    OpenSymbol(Seq<char>),
    RemoveSymbol(Seq<char>),
    SelectGroup(u64),
    DeleteGroup(u64),
    AddGroup,
    RenameGroup(u64),
    Ignored,
}

impl View for WatchlistModalAction {
    type V = WatchlistModalActionView;

    open spec fn view(&self) -> WatchlistModalActionView {
        match self {
            WatchlistModalAction::Close => WatchlistModalActionView::Close,
            WatchlistModalAction::Absorb => WatchlistModalActionView::Absorb,
            WatchlistModalAction::SearchInput => WatchlistModalActionView::SearchInput,
            WatchlistModalAction::SwitchTab(t) => WatchlistModalActionView::SwitchTab(*t),
            WatchlistModalAction::OpenSymbol(k) => WatchlistModalActionView::OpenSymbol(k@),
            WatchlistModalAction::RemoveSymbol(k) => WatchlistModalActionView::RemoveSymbol(k@),
            WatchlistModalAction::SelectGroup(id) => WatchlistModalActionView::SelectGroup(*id),
            WatchlistModalAction::DeleteGroup(id) => WatchlistModalActionView::DeleteGroup(*id),
            WatchlistModalAction::AddGroup => WatchlistModalActionView::AddGroup,
            WatchlistModalAction::RenameGroup(id) => WatchlistModalActionView::RenameGroup(*id),
            WatchlistModalAction::Ignored => WatchlistModalActionView::Ignored,
        }
    }
}

/// The tab named `t` in a `tab:{t}` id.
pub open spec fn watchlist_tab_of(t: Seq<char>) -> Option<WatchlistTab> {
    if t == "overview"@ {
        Some(WatchlistTab::Overview)
    } else if t == "groups"@ {
        Some(WatchlistTab::Groups)
    } else if t == "settings"@ {
        Some(WatchlistTab::Settings)
    } else {
        None
    }
}

/// A group action on the id in `rest`, when it is a `u64`.
pub open spec fn group_id_action(
    rest: Option<Seq<char>>,
    make: spec_fn(u64) -> WatchlistModalActionView,
) -> Option<WatchlistModalActionView> {
    match rest {
        Some(t) => Some(
            match spec_parse_u64(t) {
                Some(id) => make(id),
                None => WatchlistModalActionView::Ignored,
            },
        ),
        None => None,
    }
}

/// The action of the watchlist-modal widget `s`, tried in this order:
/// `close`; the absorbing zones; `search_input`; `tab:{tab}`;
/// `item:{key}`; `delete:{key}`; `group:{id}`; `group_delete:{id}`;
/// `group_add`; `group_rename:{id}`.
pub open spec fn watchlist_modal_action_of(s: Seq<char>) -> WatchlistModalActionView {
    if s == "close"@ {
        WatchlistModalActionView::Close
    } else if s == "modal_bg"@ || s == "header_drag"@ || s == "list_scroll"@ {
        WatchlistModalActionView::Absorb
    } else if s == "search_input"@ {
        WatchlistModalActionView::SearchInput
    } else if let Some(t) = strip_prefix_of(s, "tab:"@) {
        match watchlist_tab_of(t) {
            Some(tab) => WatchlistModalActionView::SwitchTab(tab),
            None => WatchlistModalActionView::Ignored,
        }
    } else if let Some(k) = strip_prefix_of(s, "item:"@) {
        WatchlistModalActionView::OpenSymbol(k)
    } else if let Some(k) = strip_prefix_of(s, "delete:"@) {
        WatchlistModalActionView::RemoveSymbol(k)
    } else if let Some(a) = group_id_action(
        strip_prefix_of(s, "group:"@),
        |id: u64| WatchlistModalActionView::SelectGroup(id),
    ) {
        a
    } else if let Some(a) = group_id_action(
        strip_prefix_of(s, "group_delete:"@),
        |id: u64| WatchlistModalActionView::DeleteGroup(id),
    ) {
        a
    } else if s == "group_add"@ {
        WatchlistModalActionView::AddGroup
    } else if let Some(a) = group_id_action(
        strip_prefix_of(s, "group_rename:"@),
        |id: u64| WatchlistModalActionView::RenameGroup(id),
    ) {
        a
    } else {
        WatchlistModalActionView::Ignored
    }
}

/// Decide what a click on the watchlist-modal widget `rest` does.
pub fn watchlist_modal_action(rest: &str) -> (r: WatchlistModalAction)
    ensures
        r@ == watchlist_modal_action_of(rest@),
{
    let v = chars_of(rest);
    if chars_eq(&v, "close") {
        return WatchlistModalAction::Close;
    }
    if chars_eq(&v, "modal_bg") || chars_eq(&v, "header_drag") || chars_eq(&v, "list_scroll") {
        return WatchlistModalAction::Absorb;
    }
    if chars_eq(&v, "search_input") {
        return WatchlistModalAction::SearchInput;
    }
    if let Some(t) = strip_prefix_chars(&v, "tab:") {
        let tv = chars_of(t.as_str());
        return if chars_eq(&tv, "overview") {
            WatchlistModalAction::SwitchTab(WatchlistTab::Overview)
        } else if chars_eq(&tv, "groups") {
            WatchlistModalAction::SwitchTab(WatchlistTab::Groups)
        } else if chars_eq(&tv, "settings") {
            WatchlistModalAction::SwitchTab(WatchlistTab::Settings)
        } else {
            WatchlistModalAction::Ignored
        };
    }
    if let Some(k) = strip_prefix_chars(&v, "item:") {
        return WatchlistModalAction::OpenSymbol(k);
    }
    if let Some(k) = strip_prefix_chars(&v, "delete:") {
        return WatchlistModalAction::RemoveSymbol(k);
    }
    if let Some(t) = strip_prefix_chars(&v, "group:") {
        return match parse_u64_str(t.as_str()) {
            Some(id) => WatchlistModalAction::SelectGroup(id),
            None => WatchlistModalAction::Ignored,
        };
    }
    if let Some(t) = strip_prefix_chars(&v, "group_delete:") {
        return match parse_u64_str(t.as_str()) {
            Some(id) => WatchlistModalAction::DeleteGroup(id),
            None => WatchlistModalAction::Ignored,
        };
    }
    if chars_eq(&v, "group_add") {
        return WatchlistModalAction::AddGroup;
    }
    if let Some(t) = strip_prefix_chars(&v, "group_rename:") {
        return match parse_u64_str(t.as_str()) {
            Some(id) => WatchlistModalAction::RenameGroup(id),
            None => WatchlistModalAction::Ignored,
        };
    }
    WatchlistModalAction::Ignored
}

// ---------------------------------------------------------------------------
// Search modal
// ---------------------------------------------------------------------------

/// What a click in the symbol, compare or indicator search modal does.
#[derive(Debug, Clone, PartialEq, Eq)]
pub enum SearchModalAction {
    Close,
    /// A click inside the modal body: swallowed so the backdrop stays.
    Absorb,
    /// Start editing the query with the cursor at the click.
    SearchInput,
    /// Toggle the watchlist star of the composite key.
    ToggleStar(String),
    /// Select the result with this id.
    SelectItem(String),
    /// Filter the indicator catalogue by the category with this index.
    Category(usize),
    Ignored,
}

/// [`SearchModalAction`] with its texts as character sequences.
pub enum SearchModalActionView {
    Close,
    Absorb,
    SearchInput,
    ToggleStar(Seq<char>),
    SelectItem(Seq<char>),
    Category(usize),
    Ignored,
}

impl View for SearchModalAction {
    type V = SearchModalActionView;

    open spec fn view(&self) -> SearchModalActionView {
        match self {
            SearchModalAction::Close => SearchModalActionView::Close,
            SearchModalAction::Absorb => SearchModalActionView::Absorb,
            SearchModalAction::SearchInput => SearchModalActionView::SearchInput,
            SearchModalAction::ToggleStar(k) => SearchModalActionView::ToggleStar(k@),
            SearchModalAction::SelectItem(k) => SearchModalActionView::SelectItem(k@),
            SearchModalAction::Category(i) => SearchModalActionView::Category(*i),
            SearchModalAction::Ignored => SearchModalActionView::Ignored,
        }
    }
}

/// The action of the search-modal widget `s`: `close`, `modal_bg`,
/// `search_input`, `star:{key}`, `item:{id}`, `category:{index}`; anything
/// else (the scrollbar track included) does nothing.
pub open spec fn search_modal_action_of(s: Seq<char>) -> SearchModalActionView {
    if s == "close"@ {
        SearchModalActionView::Close
    } else if s == "modal_bg"@ {
        SearchModalActionView::Absorb
    } else if s == "search_input"@ {
        SearchModalActionView::SearchInput
    } else if let Some(k) = strip_prefix_of(s, "star:"@) {
        SearchModalActionView::ToggleStar(k)
    } else if let Some(k) = strip_prefix_of(s, "item:"@) {
        SearchModalActionView::SelectItem(k)
    } else if let Some(t) = strip_prefix_of(s, "category:"@) {
        match spec_parse_usize(t) {
            Some(i) => SearchModalActionView::Category(i),
            None => SearchModalActionView::Ignored,
        }
    } else {
        SearchModalActionView::Ignored
    }
}

/// Decide what a click on the search-modal widget `rest` does.
pub fn search_modal_action(rest: &str) -> (r: SearchModalAction)
    ensures
        r@ == search_modal_action_of(rest@),
{
    let v = chars_of(rest);
    if chars_eq(&v, "close") {
        return SearchModalAction::Close;
    }
    if chars_eq(&v, "modal_bg") {
        return SearchModalAction::Absorb;
    }
    if chars_eq(&v, "search_input") {
        return SearchModalAction::SearchInput;
    }
    if let Some(k) = strip_prefix_chars(&v, "star:") {
        return SearchModalAction::ToggleStar(k);
    }
    if let Some(k) = strip_prefix_chars(&v, "item:") {
        return SearchModalAction::SelectItem(k);
    }
    if let Some(t) = strip_prefix_chars(&v, "category:") {
        return match parse_usize_str(t.as_str()) {
            Some(i) => SearchModalAction::Category(i),
            None => SearchModalAction::Ignored,
        };
    }
    SearchModalAction::Ignored
}

// ---------------------------------------------------------------------------
// Inline toolbar of a selected drawing
// ---------------------------------------------------------------------------

/// Line styles of a drawing, in the order the style button cycles them.
#[derive(Debug, Clone, Copy, PartialEq, Eq)]
pub enum LineStyle {
    Solid,
    Dashed,
    Dotted,
    LargeDashed,
    SparseDotted,
}

/// The style after `s` in the cycle.
pub open spec fn next_line_style_of(s: LineStyle) -> LineStyle {
    match s {
        LineStyle::Solid => LineStyle::Dashed,
        LineStyle::Dashed => LineStyle::Dotted,
        LineStyle::Dotted => LineStyle::LargeDashed,
        LineStyle::LargeDashed => LineStyle::SparseDotted,
        LineStyle::SparseDotted => LineStyle::Solid,
    }
}

/// The style the style button switches to from `s`.
pub fn next_line_style(s: LineStyle) -> (r: LineStyle)
    ensures
        r == next_line_style_of(s),
{
    match s {
        LineStyle::Solid => LineStyle::Dashed,
        LineStyle::Dashed => LineStyle::Dotted,
        LineStyle::Dotted => LineStyle::LargeDashed,
        LineStyle::LargeDashed => LineStyle::SparseDotted,
        LineStyle::SparseDotted => LineStyle::Solid,
    }
}

/// Pressing the style button five times gives back the starting style, and
/// no fewer presses do.
pub proof fn law_style_cycle_has_length_five(s: LineStyle)
    ensures
        next_line_style_of(next_line_style_of(next_line_style_of(next_line_style_of(
            next_line_style_of(s),
        )))) == s,
        next_line_style_of(s) != s,
        next_line_style_of(next_line_style_of(s)) != s,
        next_line_style_of(next_line_style_of(next_line_style_of(s))) != s,
        next_line_style_of(next_line_style_of(next_line_style_of(next_line_style_of(s)))) != s,
{
}

/// The style named in a style option (`solid`, `dashed`, ...).
pub open spec fn line_style_named(n: Seq<char>) -> Option<LineStyle> {
    if n == "solid"@ {
        Some(LineStyle::Solid)
    } else if n == "dashed"@ {
        Some(LineStyle::Dashed)
    } else if n == "dotted"@ {
        Some(LineStyle::Dotted)
    } else if n == "large_dashed"@ {
        Some(LineStyle::LargeDashed)
    } else if n == "sparse_dotted"@ {
        Some(LineStyle::SparseDotted)
    } else {
        None
    }
}

/// What a click on the inline toolbar of the selected drawing does.
#[derive(Debug, Clone, PartialEq, Eq)]
pub enum InlineAction {
    OpenSettings,
    PickStrokeColor,
    PickTextColor,
    Delete,
    ToggleLock,
    /// Switch to the next line style.
    CycleStyle,
    IncreaseWidth,
    /// Open the alert modal for the drawing.
    OpenAlert,
    ToggleStyleMenu,
    ToggleWidthMenu,
    /// The backdrop of an open inline dropdown: close the dropdowns.
    CloseDropdowns,
    /// Set the chosen style (none when the option is unknown) and close the
    /// style dropdown.
    SetStyle(Option<LineStyle>),
    /// Set the width written in the option and close the width dropdown.
    SetWidth(String),
    /// Nothing to do: no drawing is selected, or the button has no action.
    Ignored,
}

/// [`InlineAction`] with its text as a character sequence.
pub enum InlineActionView {
    OpenSettings,
    PickStrokeColor,
    PickTextColor,
    Delete,
    ToggleLock,
    CycleStyle,
    IncreaseWidth,
    OpenAlert,
    ToggleStyleMenu,
    ToggleWidthMenu,
    CloseDropdowns,
    SetStyle(Option<LineStyle>),
    SetWidth(Seq<char>),
    Ignored,
}

impl View for InlineAction {
    type V = InlineActionView;

    open spec fn view(&self) -> InlineActionView {
        match self {
            InlineAction::OpenSettings => InlineActionView::OpenSettings,
            InlineAction::PickStrokeColor => InlineActionView::PickStrokeColor,
            InlineAction::PickTextColor => InlineActionView::PickTextColor,
            InlineAction::Delete => InlineActionView::Delete,
            InlineAction::ToggleLock => InlineActionView::ToggleLock,
            InlineAction::CycleStyle => InlineActionView::CycleStyle,
            InlineAction::IncreaseWidth => InlineActionView::IncreaseWidth,
            InlineAction::OpenAlert => InlineActionView::OpenAlert,
            InlineAction::ToggleStyleMenu => InlineActionView::ToggleStyleMenu,
            InlineAction::ToggleWidthMenu => InlineActionView::ToggleWidthMenu,
            InlineAction::CloseDropdowns => InlineActionView::CloseDropdowns,
            InlineAction::SetStyle(s) => InlineActionView::SetStyle(*s),
            InlineAction::SetWidth(w) => InlineActionView::SetWidth(w@),
            InlineAction::Ignored => InlineActionView::Ignored,
        }
    }
}

/// The action of inline-toolbar widget `s` when a drawing is selected.
pub open spec fn inline_action_of(s: Seq<char>, has_selection: bool) -> InlineActionView {
    if !has_selection {
        InlineActionView::Ignored
    } else if s == "inline:settings"@ {
        InlineActionView::OpenSettings
    } else if s == "inline:color"@ {
        InlineActionView::PickStrokeColor
    } else if s == "inline:text_color"@ {
        InlineActionView::PickTextColor
    } else if s == "inline:delete"@ {
        InlineActionView::Delete
    } else if s == "inline:lock"@ {
        InlineActionView::ToggleLock
    } else if s == "inline:style"@ {
        InlineActionView::CycleStyle
    } else if s == "inline:width"@ {
        InlineActionView::IncreaseWidth
    } else if s == "inline:alert"@ {
        InlineActionView::OpenAlert
    } else if s == "inline:style_menu"@ {
        InlineActionView::ToggleStyleMenu
    } else if s == "inline:width_menu"@ {
        InlineActionView::ToggleWidthMenu
    } else if s == "inline_dropdown:__bg__"@ {
        InlineActionView::CloseDropdowns
    } else if let Some(n) = strip_prefix_of(s, "inline:style_option:"@) {
        InlineActionView::SetStyle(line_style_named(n))
    } else if let Some(w) = strip_prefix_of(s, "inline:width_option:"@) {
        InlineActionView::SetWidth(w)
    } else {
        InlineActionView::Ignored
    }
}

/// The style named `n`.
fn line_style_from(n: &str) -> (r: Option<LineStyle>)
    ensures
        r == line_style_named(n@),
{
    let v = chars_of(n);
    if chars_eq(&v, "solid") {
        Some(LineStyle::Solid)
    } else if chars_eq(&v, "dashed") {
        Some(LineStyle::Dashed)
    } else if chars_eq(&v, "dotted") {
        Some(LineStyle::Dotted)
    } else if chars_eq(&v, "large_dashed") {
        Some(LineStyle::LargeDashed)
    } else if chars_eq(&v, "sparse_dotted") {
        Some(LineStyle::SparseDotted)
    } else {
        None
    }
}

/// Decide what a click on inline-toolbar widget `action` does;
/// `has_selection` tells whether a drawing is selected.
pub fn inline_action(action: &str, has_selection: bool) -> (r: InlineAction)
    ensures
        r@ == inline_action_of(action@, has_selection),
{
    if !has_selection {
        return InlineAction::Ignored;
    }
    let v = chars_of(action);
    if chars_eq(&v, "inline:settings") {
        InlineAction::OpenSettings
    } else if chars_eq(&v, "inline:color") {
        InlineAction::PickStrokeColor
    } else if chars_eq(&v, "inline:text_color") {
        InlineAction::PickTextColor
    } else if chars_eq(&v, "inline:delete") {
        InlineAction::Delete
    } else if chars_eq(&v, "inline:lock") {
        InlineAction::ToggleLock
    } else if chars_eq(&v, "inline:style") {
        InlineAction::CycleStyle
    } else if chars_eq(&v, "inline:width") {
        InlineAction::IncreaseWidth
    } else if chars_eq(&v, "inline:alert") {
        InlineAction::OpenAlert
    } else if chars_eq(&v, "inline:style_menu") {
        InlineAction::ToggleStyleMenu
    } else if chars_eq(&v, "inline:width_menu") {
        InlineAction::ToggleWidthMenu
    } else if chars_eq(&v, "inline_dropdown:__bg__") {
        InlineAction::CloseDropdowns
    } else if let Some(n) = strip_prefix_chars(&v, "inline:style_option:") {
        InlineAction::SetStyle(line_style_from(n.as_str()))
    } else if let Some(w) = strip_prefix_chars(&v, "inline:width_option:") {
        InlineAction::SetWidth(w)
    } else {
        InlineAction::Ignored
    }
}

// ---------------------------------------------------------------------------
// Context menu
// ---------------------------------------------------------------------------

/// What the context menu was opened on.
#[derive(Debug, Clone, Copy, PartialEq, Eq)]
pub enum ContextTarget {
    /// The drawing with this index in the active window.
    Primitive(usize),
    ChartBackground,
    Indicator(u64),
    /// The sync color tag of this leaf.
    ColorTag(u64),
    /// Any other target.
    Other,
}

/// What a chosen context-menu item does.
#[derive(Debug, Clone, Copy, PartialEq, Eq)]
pub enum ContextCommand {
    OpenPrimitiveSettings(usize),
    DeletePrimitive(usize),
    ClonePrimitive(usize),
    TogglePrimitiveLock(usize),
    TogglePrimitiveVisibility(usize),
    ToggleChartSettings,
    ResetZoom,
    Screenshot,
    OpenSymbolSearch,
    ResetCache,
    ResetStorage,
    /// Take the leaf out of its sync group.
    Desync(u64),
    Nothing,
}

/// The command of item `action` of a menu opened on `target`.
pub open spec fn context_command_of(target: ContextTarget, action: Seq<char>) -> ContextCommand {
    match target {
        ContextTarget::Primitive(i) => if action == "settings"@ {
            ContextCommand::OpenPrimitiveSettings(i)
        } else if action == "delete"@ {
            ContextCommand::DeletePrimitive(i)
        } else if action == "clone"@ {
            ContextCommand::ClonePrimitive(i)
        } else if action == "toggle_lock"@ {
            ContextCommand::TogglePrimitiveLock(i)
        } else if action == "toggle_visibility"@ {
            ContextCommand::TogglePrimitiveVisibility(i)
        } else {
            ContextCommand::Nothing
        },
        ContextTarget::ChartBackground => if action == "chart_settings"@ {
            ContextCommand::ToggleChartSettings
        } else if action == "reset_zoom"@ {
            ContextCommand::ResetZoom
        } else if action == "screenshot"@ {
            ContextCommand::Screenshot
        } else if action == "symbol_search"@ {
            ContextCommand::OpenSymbolSearch
        } else if action == "reset_cache"@ {
            ContextCommand::ResetCache
        } else if action == "reset_storage"@ {
            ContextCommand::ResetStorage
        } else {
            ContextCommand::Nothing
        },
        ContextTarget::ColorTag(leaf) => if action == "desync"@ {
            ContextCommand::Desync(leaf)
        } else {
            ContextCommand::Nothing
        },
        _ => ContextCommand::Nothing,
    }
}

/// The items of the context menu of the chart background.
#[derive(Debug, Clone, Copy, PartialEq, Eq)]
pub enum BackgroundItem {
    OpenSettings,
    ResetZoom,
    Screenshot,
    SymbolSearch,
    ResetCache,
    ResetStorage,
}

/// The action id a background menu item reports when chosen.
pub open spec fn background_action_id(i: BackgroundItem) -> Seq<char> {
    match i {
        BackgroundItem::OpenSettings => "chart_settings"@,
        BackgroundItem::ResetZoom => "reset_zoom"@,
        BackgroundItem::Screenshot => "screenshot"@,
        BackgroundItem::SymbolSearch => "symbol_search"@,
        BackgroundItem::ResetCache => "reset_cache"@,
        BackgroundItem::ResetStorage => "reset_storage"@,
    }
}

/// The icon of a background menu item.
pub open spec fn background_icon(i: BackgroundItem) -> Seq<char> {
    match i {
        BackgroundItem::OpenSettings => "settings"@,
        BackgroundItem::ResetZoom => "zoom_reset"@,
        BackgroundItem::Screenshot => "camera"@,
        BackgroundItem::SymbolSearch => "search"@,
        BackgroundItem::ResetCache => "delete"@,
        BackgroundItem::ResetStorage => "delete"@,
    }
}

/// The background menu, top to bottom; `None` is a separator line.
pub open spec fn background_menu_of() -> Seq<Option<BackgroundItem>> {
    seq![
        Some(BackgroundItem::OpenSettings),
        None,
        Some(BackgroundItem::ResetZoom),
        None,
        Some(BackgroundItem::Screenshot),
        None,
        Some(BackgroundItem::SymbolSearch),
        None,
        Some(BackgroundItem::ResetCache),
        Some(BackgroundItem::ResetStorage),
    ]
}

/// The entries of the chart-background context menu; `None` is a separator.
pub fn chart_background_menu() -> (r: Vec<Option<BackgroundItem>>)
    ensures
        r@ == background_menu_of(),
{
    let mut v: Vec<Option<BackgroundItem>> = Vec::new();
    v.push(Some(BackgroundItem::OpenSettings));
    v.push(None);
    v.push(Some(BackgroundItem::ResetZoom));
    v.push(None);
    v.push(Some(BackgroundItem::Screenshot));
    v.push(None);
    v.push(Some(BackgroundItem::SymbolSearch));
    v.push(None);
    v.push(Some(BackgroundItem::ResetCache));
    v.push(Some(BackgroundItem::ResetStorage));
    assert(v@ =~= background_menu_of());
    v
}

impl BackgroundItem {
    /// The action id this item reports when chosen.
    pub fn action_id(&self) -> (r: &'static str)
        ensures
            r@ == background_action_id(*self),
    {
        match self {
            BackgroundItem::OpenSettings => "chart_settings",
            BackgroundItem::ResetZoom => "reset_zoom",
            BackgroundItem::Screenshot => "screenshot",
            BackgroundItem::SymbolSearch => "symbol_search",
            BackgroundItem::ResetCache => "reset_cache",
            BackgroundItem::ResetStorage => "reset_storage",
        }
    }

    /// The icon shown beside this item.
    pub fn icon(&self) -> (r: &'static str)
        ensures
            r@ == background_icon(*self),
    {
        match self {
            BackgroundItem::OpenSettings => "settings",
            BackgroundItem::ResetZoom => "zoom_reset",
            BackgroundItem::Screenshot => "camera",
            BackgroundItem::SymbolSearch => "search",
            BackgroundItem::ResetCache => "delete",
            BackgroundItem::ResetStorage => "delete",
        }
    }
}

/// Every item of the background menu does something when chosen.
pub proof fn law_background_menu_items_act(k: int)
    requires
        0 <= k < background_menu_of().len(),
        background_menu_of()[k] is Some,
    ensures
        context_command_of(
            ContextTarget::ChartBackground,
            background_action_id(background_menu_of()[k].unwrap()),
        ) != ContextCommand::Nothing,
{
    reveal_strlit("chart_settings");
    reveal_strlit("reset_zoom");
    reveal_strlit("screenshot");
    reveal_strlit("symbol_search");
    reveal_strlit("reset_cache");
    reveal_strlit("reset_storage");
}

/// Decide what the context-menu item `action` does on `target`.
pub fn context_command(target: ContextTarget, action: &str) -> (r: ContextCommand)
    ensures
        r == context_command_of(target, action@),
{
    let v = chars_of(action);
    match target {
        ContextTarget::Primitive(i) => {
            if chars_eq(&v, "settings") {
                ContextCommand::OpenPrimitiveSettings(i)
            } else if chars_eq(&v, "delete") {
                ContextCommand::DeletePrimitive(i)
            } else if chars_eq(&v, "clone") {
                ContextCommand::ClonePrimitive(i)
            } else if chars_eq(&v, "toggle_lock") {
                ContextCommand::TogglePrimitiveLock(i)
            } else if chars_eq(&v, "toggle_visibility") {
                ContextCommand::TogglePrimitiveVisibility(i)
            } else {
                ContextCommand::Nothing
            }
        },
        ContextTarget::ChartBackground => {
            if chars_eq(&v, "chart_settings") {
                ContextCommand::ToggleChartSettings
            } else if chars_eq(&v, "reset_zoom") {
                ContextCommand::ResetZoom
            } else if chars_eq(&v, "screenshot") {
                ContextCommand::Screenshot
            } else if chars_eq(&v, "symbol_search") {
                ContextCommand::OpenSymbolSearch
            } else if chars_eq(&v, "reset_cache") {
                ContextCommand::ResetCache
            } else if chars_eq(&v, "reset_storage") {
                ContextCommand::ResetStorage
            } else {
                ContextCommand::Nothing
            }
        },
        ContextTarget::ColorTag(leaf) => {
            if chars_eq(&v, "desync") {
                ContextCommand::Desync(leaf)
            } else {
                ContextCommand::Nothing
            }
        },
        _ => ContextCommand::Nothing,
    }
}

// ---------------------------------------------------------------------------
// Mouse wheel over a modal
// ---------------------------------------------------------------------------

/// The color picker whose opacity slider a wheel turns.
#[derive(Debug, Clone, Copy, PartialEq, Eq)]
pub enum OpacitySlider {
    Primitive,
    Indicator,
    Chart,
    Compare,
    Panel,
    /// An opacity slider of no known picker: the wheel is swallowed.
    Other,
}

/// The picker of a `color_picker_{source}:opacity_slider` widget.
pub open spec fn opacity_slider_of(s: Seq<char>) -> Option<OpacitySlider> {
    match strip_prefix_of(s, "color_picker_"@) {
        Some(t) => {
            let x = ":opacity_slider"@;
            if x.len() <= t.len() && t.skip(t.len() - x.len()) == x {
                let src = t.take(t.len() - x.len());
                Some(
                    if src == "primitive"@ {
                        OpacitySlider::Primitive
                    } else if src == "indicator"@ {
                        OpacitySlider::Indicator
                    } else if src == "chart"@ {
                        OpacitySlider::Chart
                    } else if src == "compare"@ {
                        OpacitySlider::Compare
                    } else if src == "panel"@ {
                        OpacitySlider::Panel
                    } else {
                        OpacitySlider::Other
                    },
                )
            } else {
                None
            }
        },
        None => None,
    }
}

/// Whether `t` ends with `x`; when it does, the length of what precedes it.
fn strip_suffix_len(t: &Vec<char>, x: &str) -> (r: Option<usize>)
    ensures
        match r {
            Some(n) => x@.len() <= t@.len() && t@.skip(t@.len() - x@.len()) == x@ && n == t@.len()
                - x@.len(),
            None => !(x@.len() <= t@.len() && t@.skip(t@.len() - x@.len()) == x@),
        },
{
    let xv = chars_of(x);
    if xv.len() > t.len() {
        return None;
    }
    let n = t.len() - xv.len();
    assert(t@.len() == t.len());
    let mut i: usize = 0;
    while i < xv.len()
        invariant
            xv@ == x@,
            n + xv@.len() == t@.len(),
            t@.len() <= usize::MAX,
            i <= xv@.len(),
            forall|j: int| 0 <= j < i ==> t@[n + j] == xv@[j],
        decreases xv@.len() - i,
    {
        if t[n + i] != xv[i] {
            assert(t@.skip(n as int)[i as int] != xv@[i as int]);
            return None;
        }
        i = i + 1;
    }
    assert(t@.skip(n as int) =~= xv@);
    Some(n)
}

/// Decide which opacity slider, if any, the hovered widget `id` is.
pub fn opacity_slider(id: &str) -> (r: Option<OpacitySlider>)
    ensures
        r == opacity_slider_of(id@),
{
    let v = chars_of(id);
    let t = match strip_prefix_chars(&v, "color_picker_") {
        Some(t) => t,
        None => return None,
    };
    let tv = chars_of(t.as_str());
    let n = match strip_suffix_len(&tv, ":opacity_slider") {
        Some(n) => n,
        None => return None,
    };
    let src = crate::strings::string_from_range(&tv, 0, n);
    assert(tv@.subrange(0, n as int) =~= tv@.take(n as int));
    let sv = chars_of(src.as_str());
    Some(
        if chars_eq(&sv, "primitive") {
            OpacitySlider::Primitive
        } else if chars_eq(&sv, "indicator") {
            OpacitySlider::Indicator
        } else if chars_eq(&sv, "chart") {
            OpacitySlider::Chart
        } else if chars_eq(&sv, "compare") {
            OpacitySlider::Compare
        } else if chars_eq(&sv, "panel") {
            OpacitySlider::Panel
        } else {
            OpacitySlider::Other
        },
    )
}

/// A scrollable modal area that takes the wheel.
#[derive(Debug, Clone, Copy, PartialEq, Eq)]
pub enum ScrollSurface {
    ChartSettings,
    IndicatorSettings,
    AlertList,
    ProfileList,
    WatchlistList,
    ChartBrowserList,
    TagsTabs,
    UserSettings,
}

/// The scroll area registered under id `s`.
pub open spec fn scroll_surface_of(s: Seq<char>) -> Option<ScrollSurface> {
    if s == "chart_settings:scroll_viewport"@ {
        Some(ScrollSurface::ChartSettings)
    } else if s == "ind_settings:scroll_viewport"@ {
        Some(ScrollSurface::IndicatorSettings)
    } else if s == "alert_settings:list_viewport"@ {
        Some(ScrollSurface::AlertList)
    } else if s == "user_settings:profile_list_viewport"@ {
        Some(ScrollSurface::ProfileList)
    } else if s == "watchlist:list_viewport"@ {
        Some(ScrollSurface::WatchlistList)
    } else if s == "chart_browser:list_viewport"@ {
        Some(ScrollSurface::ChartBrowserList)
    } else if s == "tags_tabs:scroll_viewport"@ {
        Some(ScrollSurface::TagsTabs)
    } else if s == "user_settings:scroll_viewport"@ {
        Some(ScrollSurface::UserSettings)
    } else {
        None
    }
}

/// Decide which scroll area, if any, the widget `id` under the wheel is.
pub fn scroll_surface(id: &str) -> (r: Option<ScrollSurface>)
    ensures
        r == scroll_surface_of(id@),
{
    let v = chars_of(id);
    if chars_eq(&v, "chart_settings:scroll_viewport") {
        Some(ScrollSurface::ChartSettings)
    } else if chars_eq(&v, "ind_settings:scroll_viewport") {
        Some(ScrollSurface::IndicatorSettings)
    } else if chars_eq(&v, "alert_settings:list_viewport") {
        Some(ScrollSurface::AlertList)
    } else if chars_eq(&v, "user_settings:profile_list_viewport") {
        Some(ScrollSurface::ProfileList)
    } else if chars_eq(&v, "watchlist:list_viewport") {
        Some(ScrollSurface::WatchlistList)
    } else if chars_eq(&v, "chart_browser:list_viewport") {
        Some(ScrollSurface::ChartBrowserList)
    } else if chars_eq(&v, "tags_tabs:scroll_viewport") {
        Some(ScrollSurface::TagsTabs)
    } else if chars_eq(&v, "user_settings:scroll_viewport") {
        Some(ScrollSurface::UserSettings)
    } else {
        None
    }
}

// ---------------------------------------------------------------------------
// Double click
// ---------------------------------------------------------------------------

/// What a double click on a registered widget is about.
#[derive(Debug, Clone, Copy, PartialEq, Eq)]
pub enum DoubleClickTarget {
    /// The watchlist column header: reset the separator offsets.
    WatchlistColumnHeader,
    /// The body of an agent leaf, with its leaf id when the id is well formed;
    /// nothing else handles the double click either way.
    AgentLeaf(Option<u64>),
    /// The body of a free-slot leaf, with `(slot, leaf)` when the id is well
    /// formed and names an existing slot; nothing else handles it either way.
    SlotLeaf(Option<(usize, u64)>),
    /// Not a widget with a double-click action: the chart handles it.
    Chart,
}

/// The target of a double click on widget `s`, with `slot_count` free slots.
pub open spec fn double_click_target_of(s: Seq<char>, slot_count: usize) -> DoubleClickTarget {
    if s == "watchlist:column_header"@ {
        DoubleClickTarget::WatchlistColumnHeader
    } else if starts_with(s, "agent:leaf:"@) {
        DoubleClickTarget::AgentLeaf(spec_agent_leaf_focus(s))
    } else if starts_with(s, "slot:"@) && ends_with_after(s, 0, ":focus_content"@) {
        DoubleClickTarget::SlotLeaf(spec_slot_focus_fields(s, slot_count))
    } else {
        DoubleClickTarget::Chart
    }
}

/// Decide what a double click on widget `id` is about.
pub fn double_click_target(id: &str, slot_count: usize) -> (r: DoubleClickTarget)
    ensures
        r == double_click_target_of(id@, slot_count),
{
    let v = chars_of(id);
    if chars_eq(&v, "watchlist:column_header") {
        return DoubleClickTarget::WatchlistColumnHeader;
    }
    if matches_at(&v, 0, &chars_of("agent:leaf:")) {
        return DoubleClickTarget::AgentLeaf(agent_leaf_focus(id));
    }
    let x = chars_of(":focus_content");
    if matches_at(&v, 0, &chars_of("slot:")) && x.len() <= v.len() && matches_at(
        &v,
        v.len() - x.len(),
        &x,
    ) {
        return DoubleClickTarget::SlotLeaf(slot_focus_fields(id, slot_count));
    }
    DoubleClickTarget::Chart
}

// ---------------------------------------------------------------------------
// Indicator sets in the indicator search
// ---------------------------------------------------------------------------

/// What a click on the indicator-set controls of the indicator search does.
#[derive(Debug, Clone, PartialEq, Eq)]
pub enum IndicatorSetAction {
    /// Show or hide the list of indicator sets.
    ToggleSets,
    /// Open the name input to save the current indicators as a set.
    CreateSet,
    DeleteSet(String),
    /// Replace the current indicators by those of the set.
    DeploySet(String),
    Ignored,
}

/// [`IndicatorSetAction`] with its texts as character sequences.
pub enum IndicatorSetActionView {
    ToggleSets,
    CreateSet,
    DeleteSet(Seq<char>),
    DeploySet(Seq<char>),
    Ignored,
}

impl View for IndicatorSetAction {
    type V = IndicatorSetActionView;

    open spec fn view(&self) -> IndicatorSetActionView {
        match self {
            IndicatorSetAction::ToggleSets => IndicatorSetActionView::ToggleSets,
            IndicatorSetAction::CreateSet => IndicatorSetActionView::CreateSet,
            IndicatorSetAction::DeleteSet(id) => IndicatorSetActionView::DeleteSet(id@),
            IndicatorSetAction::DeploySet(id) => IndicatorSetActionView::DeploySet(id@),
            IndicatorSetAction::Ignored => IndicatorSetActionView::Ignored,
        }
    }
}

/// The action of widget `s`: `sets_tab`, `set_create`, `set_delete:{id}`,
/// `set:{id}`.
pub open spec fn indicator_set_action_of(s: Seq<char>) -> IndicatorSetActionView {
    if s == "sets_tab"@ {
        IndicatorSetActionView::ToggleSets
    } else if s == "set_create"@ {
        IndicatorSetActionView::CreateSet
    } else if let Some(id) = strip_prefix_of(s, "set_delete:"@) {
        IndicatorSetActionView::DeleteSet(id)
    } else if let Some(id) = strip_prefix_of(s, "set:"@) {
        IndicatorSetActionView::DeploySet(id)
    } else {
        IndicatorSetActionView::Ignored
    }
}

/// Decide what a click on indicator-set widget `rest` does.
pub fn indicator_set_action(rest: &str) -> (r: IndicatorSetAction)
    ensures
        r@ == indicator_set_action_of(rest@),
{
    let v = chars_of(rest);
    if chars_eq(&v, "sets_tab") {
        IndicatorSetAction::ToggleSets
    } else if chars_eq(&v, "set_create") {
        IndicatorSetAction::CreateSet
    } else if let Some(id) = strip_prefix_chars(&v, "set_delete:") {
        IndicatorSetAction::DeleteSet(id)
    } else if let Some(id) = strip_prefix_chars(&v, "set:") {
        IndicatorSetAction::DeploySet(id)
    } else {
        IndicatorSetAction::Ignored
    }
}

// ---------------------------------------------------------------------------
// Tags & Tabs modal
// ---------------------------------------------------------------------------

/// Sections of the Tags & Tabs modal's sidebar.
#[derive(Debug, Clone, Copy, PartialEq, Eq)]
pub enum TagsTabsSection {
    Tabs,
    Tags,
    /// The map of windows and groups.
    GroupMap,
}

/// Sub-tabs of the Tags section.
#[derive(Debug, Clone, Copy, PartialEq, Eq)]
pub enum TagsSubTab {
    Groups,
    Details,
}

/// The scroll states of the Tags & Tabs modal.
#[derive(Debug, Clone, Copy, PartialEq, Eq)]
pub enum TagsTabsScroll {
    Tabs,
    TagsGroups,
    TagsDetails,
}

/// The scroll state a wheel or scrollbar drag moves: the Tabs list for the
/// Tabs section and for the map section (which has nothing to scroll), the
/// visible sub-tab's list for the Tags section.
pub open spec fn tags_tabs_scroll_of(section: TagsTabsSection, sub: TagsSubTab) -> TagsTabsScroll {
    match section {
        TagsTabsSection::Tags => match sub {
            TagsSubTab::Groups => TagsTabsScroll::TagsGroups,
            TagsSubTab::Details => TagsTabsScroll::TagsDetails,
        },
        _ => TagsTabsScroll::Tabs,
    }
}

/// Decide which scroll state of the Tags & Tabs modal is active.
pub fn tags_tabs_scroll(section: TagsTabsSection, sub: TagsSubTab) -> (r: TagsTabsScroll)
    ensures
        r == tags_tabs_scroll_of(section, sub),
{
    match section {
        TagsTabsSection::Tags => match sub {
            TagsSubTab::Groups => TagsTabsScroll::TagsGroups,
            TagsSubTab::Details => TagsTabsScroll::TagsDetails,
        },
        _ => TagsTabsScroll::Tabs,
    }
}

} // verus!
