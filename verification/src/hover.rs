//! The hover highlights a pointer move sets: each move clears the toolbar,
//! dropdown, modal-widget and leaf highlights and sets the one the hovered
//! widget names.

use vstd::prelude::*;
use crate::widget_id::{HoverTarget, HoverView, LeafTabZone, starts_with, matches_at};
use crate::strings::chars_of;

verus! {

/// The hover highlights of the toolbars, dropdowns and leaves.
#[derive(Debug, Clone)]
pub struct ToolbarHover {
    pub left_toolbar: Option<String>,
    pub top_toolbar: Option<String>,
    pub right_toolbar: Option<String>,
    pub bottom_toolbar: Option<String>,
    pub dropdown_item: Option<String>,
    pub inline_item: Option<String>,
    pub inline_dropdown_item: Option<String>,
    pub watchlist_modal_widget: Option<String>,
    pub clock_popup_item: Option<String>,
    pub agent_leaf: Option<u64>,
    pub free_leaf: Option<(usize, u64)>,
    pub leaf_tab: Option<(u64, LeafTabZone)>,
    /// Kept across moves until the menu's background is hovered.
    pub context_menu_item: Option<String>,
    /// The hovered item of the search modals; kept across moves.
    pub search_item: Option<String>,
    /// The sidebar must be re-rendered.
    pub sidebar_dirty: bool,
}

/// The highlights with their texts as character sequences.
pub struct HoverFields {
    pub left_toolbar: Option<Seq<char>>,
    pub top_toolbar: Option<Seq<char>>,
    pub right_toolbar: Option<Seq<char>>,
    pub bottom_toolbar: Option<Seq<char>>,
    pub dropdown_item: Option<Seq<char>>,
    pub inline_item: Option<Seq<char>>,
    pub inline_dropdown_item: Option<Seq<char>>,
    pub watchlist_modal_widget: Option<Seq<char>>,
    pub clock_popup_item: Option<Seq<char>>,
    pub agent_leaf: Option<u64>,
    pub free_leaf: Option<(usize, u64)>,
    pub leaf_tab: Option<(u64, LeafTabZone)>,
    pub context_menu_item: Option<Seq<char>>,
    pub search_item: Option<Seq<char>>,
    pub sidebar_dirty: bool,
}

/// A text option as a character sequence.
pub open spec fn text_view(o: Option<String>) -> Option<Seq<char>> {
    match o {
        Some(s) => Some(s@),
        None => None,
    }
}

impl View for ToolbarHover {
    type V = HoverFields;

    open spec fn view(&self) -> HoverFields {
        HoverFields {
            left_toolbar: text_view(self.left_toolbar),
            top_toolbar: text_view(self.top_toolbar),
            right_toolbar: text_view(self.right_toolbar),
            bottom_toolbar: text_view(self.bottom_toolbar),
            dropdown_item: text_view(self.dropdown_item),
            inline_item: text_view(self.inline_item),
            inline_dropdown_item: text_view(self.inline_dropdown_item),
            watchlist_modal_widget: text_view(self.watchlist_modal_widget),
            clock_popup_item: text_view(self.clock_popup_item),
            agent_leaf: self.agent_leaf,
            free_leaf: self.free_leaf,
            leaf_tab: self.leaf_tab,
            context_menu_item: text_view(self.context_menu_item),
            search_item: text_view(self.search_item),
            sidebar_dirty: self.sidebar_dirty,
        }
    }
}

/// The highlights that every move clears, cleared.
pub open spec fn cleared(h: HoverFields) -> HoverFields {
    HoverFields {
        left_toolbar: None,
        top_toolbar: None,
        right_toolbar: None,
        bottom_toolbar: None,
        dropdown_item: None,
        inline_item: None,
        inline_dropdown_item: None,
        watchlist_modal_widget: None,
        clock_popup_item: None,
        agent_leaf: None,
        free_leaf: None,
        leaf_tab: None,
        ..h
    }
}

/// The highlights after a move over `target` (`None`: no widget is under
/// the pointer, which also clears the search item while a search modal is
/// open). A panel widget's hover is handed to its panel by the caller.
pub open spec fn hover_after(h: HoverFields, target: Option<HoverView>, search_open: bool) -> HoverFields {
    let c = cleared(h);
    match target {
        None => if search_open {
            HoverFields { search_item: None, ..c }
        } else {
            c
        },
        Some(v) => match v {
            HoverView::LeftToolbar(s) => HoverFields { left_toolbar: Some(s), ..c },
            HoverView::TopToolbar(s) => HoverFields { top_toolbar: Some(s), ..c },
            HoverView::BottomToolbar(s) => HoverFields { bottom_toolbar: Some(s), ..c },
            HoverView::RightToolbar(s) => HoverFields { right_toolbar: Some(s), ..c },
            HoverView::InlineDropdownItem(s) => HoverFields { inline_dropdown_item: Some(s), ..c },
            HoverView::InlineItem(s) => HoverFields { inline_item: Some(s), ..c },
            HoverView::DropdownItem(s) => HoverFields { dropdown_item: Some(s), ..c },
            HoverView::ContextMenuItem(s) => HoverFields { context_menu_item: Some(s), ..c },
            HoverView::ContextMenuBackground => HoverFields { context_menu_item: None, ..c },
            HoverView::LeafTab(l, z) => HoverFields { leaf_tab: Some((l, z)), ..c },
            HoverView::ClockPopupItem(s) => HoverFields { clock_popup_item: Some(s), ..c },
            HoverView::WatchlistModalWidget(s) => HoverFields { watchlist_modal_widget: Some(s), ..c },
            HoverView::SearchItem(s) => HoverFields { search_item: Some(s), ..c },
            HoverView::AgentLeaf(l) => HoverFields { agent_leaf: Some(l), sidebar_dirty: true, ..c },
            HoverView::FreeLeaf(i, l) => HoverFields { free_leaf: Some((i, l)), sidebar_dirty: true, ..c },
            _ => c,
        },
    }
}

/// The view of an optional hover target.
pub open spec fn target_view(t: Option<HoverTarget>) -> Option<HoverView> {
    match t {
        Some(x) => Some(x@),
        None => None,
    }
}

impl ToolbarHover {
    /// Update the highlights for a pointer move over `target`, `None`
    /// when no widget is under the pointer.
    pub fn apply_move(&mut self, target: Option<HoverTarget>, search_open: bool)
        ensures
            final(self)@ == hover_after(old(self)@, target_view(target), search_open),
    {
        self.left_toolbar = None;
        self.top_toolbar = None;
        self.right_toolbar = None;
        self.bottom_toolbar = None;
        self.dropdown_item = None;
        self.inline_item = None;
        self.inline_dropdown_item = None;
        self.watchlist_modal_widget = None;
        self.clock_popup_item = None;
        self.agent_leaf = None;
        self.free_leaf = None;
        self.leaf_tab = None;
        match target {
            None => {
                if search_open {
                    self.search_item = None;
                }
            },
            Some(t) => match t {
                HoverTarget::LeftToolbar(s) => self.left_toolbar = Some(s),
                HoverTarget::TopToolbar(s) => self.top_toolbar = Some(s),
                HoverTarget::BottomToolbar(s) => self.bottom_toolbar = Some(s),
                HoverTarget::RightToolbar(s) => self.right_toolbar = Some(s),
                HoverTarget::InlineDropdownItem(s) => self.inline_dropdown_item = Some(s),
                HoverTarget::InlineItem(s) => self.inline_item = Some(s),
                HoverTarget::DropdownItem(s) => self.dropdown_item = Some(s),
                HoverTarget::ContextMenuItem(s) => self.context_menu_item = Some(s),
                HoverTarget::ContextMenuBackground => self.context_menu_item = None,
                HoverTarget::LeafTab(l, z) => self.leaf_tab = Some((l, z)),
                HoverTarget::ClockPopupItem(s) => self.clock_popup_item = Some(s),
                HoverTarget::WatchlistModalWidget(s) => self.watchlist_modal_widget = Some(s),
                HoverTarget::SearchItem(s) => self.search_item = Some(s),
                HoverTarget::AgentLeaf(l) => {
                    self.agent_leaf = Some(l);
                    self.sidebar_dirty = true;
                },
                HoverTarget::FreeLeaf(i, l) => {
                    self.free_leaf = Some((i, l));
                    self.sidebar_dirty = true;
                },
                _ => {},
            },
        }
    }
}

/// At most one toolbar highlight is set after a move, and a move over the
/// same widget twice gives the same highlights as once.
pub proof fn law_hover_is_idempotent(h: HoverFields, t: Option<HoverView>, search_open: bool)
    ensures
        hover_after(hover_after(h, t, search_open), t, search_open) == hover_after(h, t, search_open),
        ({
            let a = hover_after(h, t, search_open);
            (a.left_toolbar is Some) as int + (a.top_toolbar is Some) as int + (
            a.right_toolbar is Some) as int + (a.bottom_toolbar is Some) as int <= 1
        }),
{
}

/// A move over a toolbar item highlights that item in its own toolbar and
/// in no other; a move over a leaf highlights that leaf and redraws the
/// sidebar; the context menu's item survives moves elsewhere and goes only
/// over the menu's background.
pub proof fn law_hover_highlights_what_is_hovered(h: HoverFields, x: Seq<char>, l: u64, so: bool)
    ensures
        ({
            let a = hover_after(h, Some(HoverView::LeftToolbar(x)), so);
            a.left_toolbar == Some(x) && a.top_toolbar is None && a.right_toolbar is None
                && a.bottom_toolbar is None
        }),
        ({
            let a = hover_after(h, Some(HoverView::TopToolbar(x)), so);
            a.top_toolbar == Some(x) && a.left_toolbar is None && a.right_toolbar is None
                && a.bottom_toolbar is None
        }),
        ({
            let a = hover_after(h, Some(HoverView::RightToolbar(x)), so);
            a.right_toolbar == Some(x) && a.left_toolbar is None && a.top_toolbar is None
                && a.bottom_toolbar is None
        }),
        ({
            let a = hover_after(h, Some(HoverView::BottomToolbar(x)), so);
            a.bottom_toolbar == Some(x) && a.left_toolbar is None && a.top_toolbar is None
                && a.right_toolbar is None
        }),
        hover_after(h, Some(HoverView::DropdownItem(x)), so).dropdown_item == Some(x),
        hover_after(h, Some(HoverView::InlineItem(x)), so).inline_item == Some(x),
        hover_after(h, Some(HoverView::InlineDropdownItem(x)), so).inline_dropdown_item == Some(x),
        hover_after(h, Some(HoverView::ClockPopupItem(x)), so).clock_popup_item == Some(x),
        hover_after(h, Some(HoverView::WatchlistModalWidget(x)), so).watchlist_modal_widget == Some(x),
        hover_after(h, Some(HoverView::SearchItem(x)), so).search_item == Some(x),
        hover_after(h, Some(HoverView::AgentLeaf(l)), so).agent_leaf == Some(l)
            && hover_after(h, Some(HoverView::AgentLeaf(l)), so).sidebar_dirty,
        hover_after(h, Some(HoverView::ContextMenuItem(x)), so).context_menu_item == Some(x),
        hover_after(h, Some(HoverView::LeftToolbar(x)), so).context_menu_item == h.context_menu_item,
        hover_after(h, Some(HoverView::ContextMenuBackground), so).context_menu_item is None,
{
}

/// What decides whether a pointer move shows the crosshair.
#[derive(Debug, Clone)]
pub struct CrosshairFacts {
    /// A UI drag (slider, scrollbar, modal header, colour picker) is on.
    pub ui_drag_active: bool,
    /// The watchlist modal or the group-name input is open.
    pub watchlist_modal_open: bool,
    /// The chart's own hit test puts the pointer on a chart canvas or a
    /// price scale (of the main chart or a sub-pane).
    pub geometry_on_canvas: bool,
    /// The widget the toolkit reports under the pointer, if any.
    pub hovered_widget: Option<String>,
    /// A click-placed drawing is in progress in the hovered leaf.
    pub drawing: bool,
}

/// The crosshair shows unless a UI drag is on or the watchlist modal is
/// open; otherwise it shows over the chart canvas (by the chart's hit test,
/// unless a widget other than a chart pane is reported under the pointer),
/// and anywhere while a drawing is in progress.
pub open spec fn crosshair_gate_of(f: CrosshairFacts) -> bool {
    let explicit_non_chart = match f.hovered_widget {
        Some(w) => !starts_with(w@, "chart:pane:"@),
        None => false,
    };
    !f.ui_drag_active && !f.watchlist_modal_open && ((f.geometry_on_canvas && !explicit_non_chart)
        || f.drawing)
}

/// Whether a pointer move shows the crosshair (or hides it everywhere).
pub fn crosshair_gate(f: &CrosshairFacts) -> (v: bool)
    ensures
        v == crosshair_gate_of(*f),
{
    if f.ui_drag_active || f.watchlist_modal_open {
        return false;
    }
    let explicit_non_chart = match &f.hovered_widget {
        Some(w) => !matches_at(&chars_of(w.as_str()), 0, &chars_of("chart:pane:")),
        None => false,
    };
    (f.geometry_on_canvas && !explicit_non_chart) || f.drawing
}

} // verus!
