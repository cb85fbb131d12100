//! Which drag a mouse press starts, and what ending a drag does. The
//! pointer tests on pixel rectangles are made by the caller and handed in
//! as plain values; the order in which the candidates are tried, and the
//! widget ids that name them, are decided here.

use vstd::prelude::*;
use crate::strings::{chars_of, chars_eq};
use crate::watchlist::{reorder_move_of, reorder_move, modal_reorder_move_of, modal_reorder_move};
use crate::widget_id::{
    spec_agent_separator, agent_separator, spec_slot_sep_indices, slot_sep_indices,
    spec_watchlist_separator, watchlist_separator, spec_watchlist_row, watchlist_row,
    FREE_SLOT_COUNT,
};

verus! {

// ---------------------------------------------------------------------------
// Drag start
// ---------------------------------------------------------------------------

/// What the choice of a press's drag reads.
#[derive(Debug, Clone)]
pub struct DragStartState {
    /// An agent-panel separator is already being dragged.
    pub agent_sep_dragging: bool,
    /// How many separators the agent panel has.
    pub agent_separator_count: usize,
    pub sidebar_open: bool,
    /// A UI drag has already been claimed during this press.
    pub ui_drag_active: bool,
    /// The press is on an agent leaf's scrollbar handle or track.
    pub on_agent_scrollbar: bool,
    /// The mode of the focused agent leaf's session (`true` for a terminal),
    /// once the press has focused the leaf under it; `None` without one.
    pub focused_session_pty: Option<bool>,
    /// The terminal cell under the press, when it lies in the terminal.
    pub pty_press_cell: Option<(u16, u16)>,
    /// The press lies on a chat line of the focused chat leaf.
    pub on_chat_content: bool,
    /// The press lies outside an open colour-picker popup, which it closes.
    pub popup_dismissed: bool,
    /// The right sidebar shows the watchlist.
    pub watchlist_panel_open: bool,
    /// The watchlist columns have equal widths, so their separators are fixed.
    pub watchlist_columns_aligned: bool,
    /// A free-slot separator is already being dragged.
    pub slot_sep_dragging: bool,
    /// How many separators each free slot has.
    pub slot_separator_counts: Vec<usize>,
    /// A slot panel is already being dragged.
    pub panel_dragging: bool,
    /// The slot leaf under the press holds a panel that takes drags.
    pub panel_grab: bool,
    /// The press is on a signal group's scrollbar track.
    pub signal_group_track_hit: bool,
    /// The press is on the right sidebar's scrollbar track.
    pub sidebar_track_hit: bool,
}

/// The drag a press starts.
#[derive(Debug, Clone, Copy, PartialEq, Eq)]
pub enum DragClaim {
    /// Resize the agent panel at this separator.
    AgentSeparator(usize),
    /// Drag or jump an agent leaf's scrollbar.
    AgentScrollbar,
    /// Start a terminal selection at this cell.
    PtySelection(u16, u16),
    /// Start a chat selection.
    ChatSelection,
    /// The press only closed a colour picker; the chart must not take it.
    DismissPopup,
    /// Resize the right sidebar.
    SidebarSeparator,
    /// Move this watchlist column separator.
    WatchlistColumnSeparator(usize),
    /// Drag this watchlist row to reorder it.
    WatchlistRow(usize),
    SignalGroupTrack,
    SidebarTrack,
    /// Resize free slot `slot` at separator `sep`.
    SlotSeparator(usize, usize),
    /// Hand the drag to the slot panel under the press.
    SlotPanel,
    /// None of these: the remaining handlers (sidebar drag-to-scroll, modal
    /// headers and scrollbars, sliders, the chart) decide.
    Continue,
}

/// Whether slot `slot` has a separator `sep`.
pub open spec fn slot_separator_exists(s: DragStartState, slot: usize, sep: usize) -> bool {
    slot < FREE_SLOT_COUNT && slot < s.slot_separator_counts@.len() && sep
        < s.slot_separator_counts@[slot as int]
}

/// The drag a press starts with `hovered` the widget under it, candidates
/// tried in this order: an agent separator, an agent scrollbar, a terminal
/// or chat selection in the focused leaf, the dismissal of a colour picker,
/// the sidebar separator, a watchlist column separator, a watchlist row,
/// the scrollbar tracks, a slot separator, a slot panel.
pub open spec fn drag_start_claim_of(s: DragStartState, hovered: Seq<char>) -> DragClaim {
    let free = s.sidebar_open && !s.ui_drag_active;
    if !s.agent_sep_dragging && spec_agent_separator(hovered) is Some
        && spec_agent_separator(hovered).unwrap() < s.agent_separator_count {
        DragClaim::AgentSeparator(spec_agent_separator(hovered).unwrap())
    } else if free && s.on_agent_scrollbar {
        DragClaim::AgentScrollbar
    } else if s.focused_session_pty == Some(true) && s.pty_press_cell is Some {
        DragClaim::PtySelection(s.pty_press_cell.unwrap().0, s.pty_press_cell.unwrap().1)
    } else if s.focused_session_pty == Some(false) && s.on_chat_content {
        DragClaim::ChatSelection
    } else if s.popup_dismissed {
        DragClaim::DismissPopup
    } else if hovered == "right_sidebar_separator"@ {
        DragClaim::SidebarSeparator
    } else if s.watchlist_panel_open && !s.watchlist_columns_aligned
        && spec_watchlist_separator(hovered) is Some {
        DragClaim::WatchlistColumnSeparator(spec_watchlist_separator(hovered).unwrap())
    } else if s.watchlist_panel_open && spec_watchlist_row(hovered) is Some {
        DragClaim::WatchlistRow(spec_watchlist_row(hovered).unwrap())
    } else if free && s.signal_group_track_hit {
        DragClaim::SignalGroupTrack
    } else if free && s.sidebar_track_hit {
        DragClaim::SidebarTrack
    } else if !s.slot_sep_dragging && spec_slot_sep_indices(hovered) is Some
        && slot_separator_exists(
        s,
        spec_slot_sep_indices(hovered).unwrap().0,
        spec_slot_sep_indices(hovered).unwrap().1,
    ) {
        DragClaim::SlotSeparator(
            spec_slot_sep_indices(hovered).unwrap().0,
            spec_slot_sep_indices(hovered).unwrap().1,
        )
    } else if !s.panel_dragging && s.panel_grab {
        DragClaim::SlotPanel
    } else {
        DragClaim::Continue
    }
}

/// Decide which drag a press on widget `hovered` starts.
pub fn drag_start_claim(s: &DragStartState, hovered: &str) -> (c: DragClaim)
    ensures
        c == drag_start_claim_of(*s, hovered@),
{
    let free = s.sidebar_open && !s.ui_drag_active;
    if !s.agent_sep_dragging {
        if let Some(i) = agent_separator(hovered) {
            if i < s.agent_separator_count {
                return DragClaim::AgentSeparator(i);
            }
        }
    }
    if free && s.on_agent_scrollbar {
        return DragClaim::AgentScrollbar;
    }
    if s.focused_session_pty == Some(true) {
        if let Some((r, c)) = s.pty_press_cell {
            return DragClaim::PtySelection(r, c);
        }
    }
    if s.focused_session_pty == Some(false) && s.on_chat_content {
        return DragClaim::ChatSelection;
    }
    if s.popup_dismissed {
        return DragClaim::DismissPopup;
    }
    if chars_eq(&chars_of(hovered), "right_sidebar_separator") {
        return DragClaim::SidebarSeparator;
    }
    if s.watchlist_panel_open && !s.watchlist_columns_aligned {
        if let Some(k) = watchlist_separator(hovered) {
            return DragClaim::WatchlistColumnSeparator(k);
        }
    }
    if s.watchlist_panel_open {
        if let Some(i) = watchlist_row(hovered) {
            return DragClaim::WatchlistRow(i);
        }
    }
    if free && s.signal_group_track_hit {
        return DragClaim::SignalGroupTrack;
    }
    if free && s.sidebar_track_hit {
        return DragClaim::SidebarTrack;
    }
    if !s.slot_sep_dragging {
        if let Some((a, b)) = slot_sep_indices(hovered) {
            if a < FREE_SLOT_COUNT && a < s.slot_separator_counts.len() && b
                < s.slot_separator_counts[a] {
                return DragClaim::SlotSeparator(a, b);
            }
        }
    }
    if !s.panel_dragging && s.panel_grab {
        return DragClaim::SlotPanel;
    }
    DragClaim::Continue
}

// ---------------------------------------------------------------------------
// Drag end
// ---------------------------------------------------------------------------

/// The drags in progress when the mouse button is released.
#[derive(Debug, Clone, Copy, PartialEq, Eq)]
pub struct DragState {
    pub ui_drag_active: bool,
    pub agent_sep_drag: bool,
    pub slot_sep_drag: bool,
    /// A slot panel is being dragged.
    pub panel_drag: bool,
    pub tradetape_drag: bool,
    /// A terminal selection is being dragged.
    pub pty_selection_drag: bool,
    /// A chat selection is being dragged.
    pub chat_selection_drag: bool,
    /// The press only dismissed a popup.
    pub dismissed_popup: bool,
    /// A chart sub-pane separator is being dragged.
    pub pane_separator_drag: bool,
    pub sidebar_separator_drag: bool,
    pub watchlist_sep_drag: bool,
    /// A watchlist-modal row drag that never moved far enough to start.
    pub watchlist_modal_reorder_pending: bool,
    /// The watchlist-modal row being dragged, and where it would drop.
    pub watchlist_modal_reorder: Option<usize>,
    pub watchlist_modal_drop: Option<usize>,
    /// The sidebar watchlist row being dragged, and where it would drop.
    pub watchlist_drag: Option<usize>,
    pub watchlist_drop: Option<usize>,
    /// Rows of the active watchlist outside any group.
    pub watchlist_len: usize,
    pub sidebar_scroll_drag: bool,
    pub split_separator_drag: bool,
}

/// What ending the drag asks the application to do.
#[derive(Debug, Clone, Copy, PartialEq, Eq)]
pub enum DragEndEffect {
    /// A panel separator was moved: redraw the sidebar and save the layout.
    SaveSidebarLayout,
    /// Tell the dragged slot panel the drag ended, redraw the sidebar.
    EndPanelDrag,
    /// Redraw the sidebar.
    RedrawSidebar,
    /// Drop the focused leaf's terminal selection if it is empty; redraw.
    EndPtySelection,
    /// Drop the focused leaf's chat selection if it is empty; redraw.
    EndChatSelection,
    /// The press only closed a popup.
    Nothing,
    /// Save the profile (sub-pane heights or sidebar width).
    SaveProfile,
    /// Push the watchlist column offsets and save the watchlists.
    SaveWatchlistColumns,
    /// Move a watchlist-modal row, when there is a move.
    ReorderModalRow(Option<(usize, usize)>),
    /// Move a sidebar watchlist row, when there is a move.
    ReorderRow(Option<(usize, usize)>),
    /// Save the chart split ratio.
    SaveSplit,
    /// The remaining drags (modal drags, scrollbars, sliders, the chart)
    /// end in the caller's handlers.
    Continue,
}

/// The release reaches the text-field store, which ends its own drag
/// selection: every release but those that end a separator, panel, tape
/// or selection drag first.
pub open spec fn notifies_text_fields(e: DragEndEffect) -> bool {
    match e {
        DragEndEffect::SaveSidebarLayout | DragEndEffect::EndPanelDrag
        | DragEndEffect::RedrawSidebar | DragEndEffect::EndPtySelection
        | DragEndEffect::EndChatSelection => false,
        _ => true,
    }
}

/// Whether the text-field store must be told that a drag ended, given what
/// the release ended.
pub fn ends_text_field_drag(e: DragEndEffect) -> (r: bool)
    ensures
        r == notifies_text_fields(e),
{
    match e {
        DragEndEffect::SaveSidebarLayout | DragEndEffect::EndPanelDrag
        | DragEndEffect::RedrawSidebar | DragEndEffect::EndPtySelection
        | DragEndEffect::EndChatSelection => false,
        _ => true,
    }
}

/// The drag that ends first, and the state after it: drags are tried in
/// a fixed order and only the first in progress ends (the pending
/// watchlist-modal drag and the sidebar drag-to-scroll are cleared on the
/// way, whatever follows).
pub open spec fn drag_end_of(s: DragState) -> (DragState, DragEndEffect) {
    let s0 = DragState { ui_drag_active: false, ..s };
    if s.agent_sep_drag {
        (DragState { agent_sep_drag: false, ..s0 }, DragEndEffect::SaveSidebarLayout)
    } else if s.slot_sep_drag {
        (DragState { slot_sep_drag: false, ..s0 }, DragEndEffect::SaveSidebarLayout)
    } else if s.panel_drag {
        (DragState { panel_drag: false, ..s0 }, DragEndEffect::EndPanelDrag)
    } else if s.tradetape_drag {
        (DragState { tradetape_drag: false, ..s0 }, DragEndEffect::RedrawSidebar)
    } else if s.pty_selection_drag {
        (DragState { pty_selection_drag: false, ..s0 }, DragEndEffect::EndPtySelection)
    } else if s.chat_selection_drag {
        (DragState { chat_selection_drag: false, ..s0 }, DragEndEffect::EndChatSelection)
    } else if s.dismissed_popup {
        (DragState { dismissed_popup: false, ..s0 }, DragEndEffect::Nothing)
    } else if s.pane_separator_drag {
        (DragState { pane_separator_drag: false, ..s0 }, DragEndEffect::SaveProfile)
    } else if s.sidebar_separator_drag {
        (DragState { sidebar_separator_drag: false, ..s0 }, DragEndEffect::SaveProfile)
    } else if s.watchlist_sep_drag {
        (DragState { watchlist_sep_drag: false, ..s0 }, DragEndEffect::SaveWatchlistColumns)
    } else {
        let s1 = DragState { watchlist_modal_reorder_pending: false, ..s0 };
        if let Some(from) = s.watchlist_modal_reorder {
            (
                DragState { watchlist_modal_reorder: None, watchlist_modal_drop: None, ..s1 },
                DragEndEffect::ReorderModalRow(
                    modal_reorder_move_of(from, s.watchlist_modal_drop, s.watchlist_len),
                ),
            )
        } else if let Some(drag) = s.watchlist_drag {
            (
                DragState { watchlist_drag: None, watchlist_drop: None, ..s1 },
                DragEndEffect::ReorderRow(reorder_move_of(drag, s.watchlist_drop, s.watchlist_len)),
            )
        } else {
            let s2 = DragState { sidebar_scroll_drag: false, ..s1 };
            if s.split_separator_drag {
                (DragState { split_separator_drag: false, ..s2 }, DragEndEffect::SaveSplit)
            } else {
                (s2, DragEndEffect::Continue)
            }
        }
    }
}

/// End the drag in progress when the mouse button is released.
pub fn drag_end_step(s: DragState) -> (r: (DragState, DragEndEffect))
    ensures
        r == drag_end_of(s),
{
    let mut t = s;
    t.ui_drag_active = false;
    if s.agent_sep_drag {
        t.agent_sep_drag = false;
        return (t, DragEndEffect::SaveSidebarLayout);
    }
    if s.slot_sep_drag {
        t.slot_sep_drag = false;
        return (t, DragEndEffect::SaveSidebarLayout);
    }
    if s.panel_drag {
        t.panel_drag = false;
        return (t, DragEndEffect::EndPanelDrag);
    }
    if s.tradetape_drag {
        t.tradetape_drag = false;
        return (t, DragEndEffect::RedrawSidebar);
    }
    if s.pty_selection_drag {
        t.pty_selection_drag = false;
        return (t, DragEndEffect::EndPtySelection);
    }
    if s.chat_selection_drag {
        t.chat_selection_drag = false;
        return (t, DragEndEffect::EndChatSelection);
    }
    if s.dismissed_popup {
        t.dismissed_popup = false;
        return (t, DragEndEffect::Nothing);
    }
    if s.pane_separator_drag {
        t.pane_separator_drag = false;
        return (t, DragEndEffect::SaveProfile);
    }
    if s.sidebar_separator_drag {
        t.sidebar_separator_drag = false;
        return (t, DragEndEffect::SaveProfile);
    }
    if s.watchlist_sep_drag {
        t.watchlist_sep_drag = false;
        return (t, DragEndEffect::SaveWatchlistColumns);
    }
    t.watchlist_modal_reorder_pending = false;
    if let Some(from) = s.watchlist_modal_reorder {
        t.watchlist_modal_reorder = None;
        t.watchlist_modal_drop = None;
        let m = modal_reorder_move(from, s.watchlist_modal_drop, s.watchlist_len);
        return (t, DragEndEffect::ReorderModalRow(m));
    }
    if let Some(drag) = s.watchlist_drag {
        t.watchlist_drag = None;
        t.watchlist_drop = None;
        let m = reorder_move(drag, s.watchlist_drop, s.watchlist_len);
        return (t, DragEndEffect::ReorderRow(m));
    }
    t.sidebar_scroll_drag = false;
    if s.split_separator_drag {
        t.split_separator_drag = false;
        return (t, DragEndEffect::SaveSplit);
    }
    (t, DragEndEffect::Continue)
}

/// One for a flag that is up.
pub open spec fn one_if(b: bool) -> nat {
    if b { 1 } else { 0 }
}

/// How many of the drags that a release ends are in progress.
pub open spec fn drags_in_progress(s: DragState) -> nat {
    one_if(s.agent_sep_drag) + one_if(s.slot_sep_drag) + one_if(s.panel_drag)
        + one_if(s.tradetape_drag) + one_if(s.pty_selection_drag)
        + one_if(s.chat_selection_drag) + one_if(s.dismissed_popup)
        + one_if(s.pane_separator_drag) + one_if(s.sidebar_separator_drag)
        + one_if(s.watchlist_sep_drag) + one_if(s.watchlist_modal_reorder is Some)
        + one_if(s.watchlist_drag is Some) + one_if(s.split_separator_drag)
}

/// Each release ends exactly one drag in progress, and a release that ends
/// none (`Continue`) leaves none in progress: releases one after another
/// end every drag, and the UI-drag flag is down after any release.
#[verifier::rlimit(40)]
pub proof fn law_drag_end_ends_one(s: DragState)
    ensures
        !drag_end_of(s).0.ui_drag_active,
        drag_end_of(s).1 != DragEndEffect::Continue ==> drags_in_progress(drag_end_of(s).0) + 1
            == drags_in_progress(s),
        drag_end_of(s).1 == DragEndEffect::Continue ==> drags_in_progress(drag_end_of(s).0) == 0
            && drags_in_progress(s) == 0 && !drag_end_of(s).0.sidebar_scroll_drag,
{
}

/// The drag state after a press's claim starts its drag: the claims that
/// end on release raise their flag (and the UI-drag flag where the handler
/// raises it); the others start drags that this state does not track.
pub open spec fn drag_after_claim_of(s: DragState, c: DragClaim) -> DragState {
    match c {
        DragClaim::AgentSeparator(_) => DragState { agent_sep_drag: true, ui_drag_active: true, ..s },
        DragClaim::PtySelection(_, _) => DragState { pty_selection_drag: true, ..s },
        DragClaim::ChatSelection => DragState { chat_selection_drag: true, ..s },
        DragClaim::DismissPopup => DragState { dismissed_popup: true, ..s },
        DragClaim::SidebarSeparator => DragState { sidebar_separator_drag: true, ..s },
        DragClaim::WatchlistColumnSeparator(_) => DragState {
            watchlist_sep_drag: true,
            ui_drag_active: true,
            ..s
        },
        DragClaim::WatchlistRow(i) => DragState {
            watchlist_drag: Some(i),
            watchlist_drop: Some(i),
            ui_drag_active: true,
            ..s
        },
        DragClaim::SlotSeparator(_, _) => DragState { slot_sep_drag: true, ui_drag_active: true, ..s },
        DragClaim::SlotPanel => DragState { panel_drag: true, ui_drag_active: true, ..s },
        _ => s,
    }
}

/// Start the drag a press claimed.
pub fn start_drag(s: DragState, c: DragClaim) -> (r: DragState)
    ensures
        r == drag_after_claim_of(s, c),
{
    match c {
        DragClaim::AgentSeparator(_) => DragState { agent_sep_drag: true, ui_drag_active: true, ..s },
        DragClaim::PtySelection(_, _) => DragState { pty_selection_drag: true, ..s },
        DragClaim::ChatSelection => DragState { chat_selection_drag: true, ..s },
        DragClaim::DismissPopup => DragState { dismissed_popup: true, ..s },
        DragClaim::SidebarSeparator => DragState { sidebar_separator_drag: true, ..s },
        DragClaim::WatchlistColumnSeparator(_) => DragState {
            watchlist_sep_drag: true,
            ui_drag_active: true,
            ..s
        },
        DragClaim::WatchlistRow(i) => DragState {
            watchlist_drag: Some(i),
            watchlist_drop: Some(i),
            ui_drag_active: true,
            ..s
        },
        DragClaim::SlotSeparator(_, _) => DragState { slot_sep_drag: true, ui_drag_active: true, ..s },
        DragClaim::SlotPanel => DragState { panel_drag: true, ui_drag_active: true, ..s },
        _ => s,
    }
}

/// From a state with no drag in progress, the sidebar separator is being
/// dragged once a press claims it, and no longer once the next release
/// comes, which saves the profile.
pub proof fn law_sidebar_separator_drag_lifecycle(s: DragState)
    requires
        drags_in_progress(s) == 0,
    ensures
        drag_after_claim_of(s, DragClaim::SidebarSeparator).sidebar_separator_drag,
        !drag_end_of(drag_after_claim_of(s, DragClaim::SidebarSeparator)).0.sidebar_separator_drag,
        drag_end_of(drag_after_claim_of(s, DragClaim::SidebarSeparator)).1 == DragEndEffect::SaveProfile,
{
}

/// A drag that a claim starts from an idle state is the one the next
/// release ends: one drag is then in progress, and none after the release.
pub proof fn law_claimed_drag_ends_on_release(s: DragState, c: DragClaim)
    requires
        drags_in_progress(s) == 0,
        drag_after_claim_of(s, c) != s,
    ensures
        drags_in_progress(drag_after_claim_of(s, c)) == 1,
        drags_in_progress(drag_end_of(drag_after_claim_of(s, c)).0) == 0,
        drag_end_of(drag_after_claim_of(s, c)).1 != DragEndEffect::Continue,
{
    law_drag_end_ends_one(drag_after_claim_of(s, c));
}

/// What a pointer move during a drag updates, in the order tried.
#[derive(Debug, Clone, Copy, PartialEq, Eq)]
pub enum DragMoveTarget {
    AgentSeparator,
    SlotPanel,
    TradeTape,
    SlotSeparator,
    /// Extend the focused leaf's terminal selection.
    PtySelection,
    /// Extend the focused leaf's chat selection.
    ChatSelection,
    /// The press only closed a popup: the move does nothing.
    DismissedPopup,
    SidebarSeparator,
    WatchlistColumnSeparator,
    /// Update the watchlist modal's drop row.
    WatchlistModalRow,
    /// Update the sidebar watchlist's drop row.
    WatchlistRow,
    /// None of these: scrollbars, drag-to-scroll, split separators, modal
    /// drags, sliders and the chart decide.
    Continue,
}

/// The drag a pointer move updates: the first in progress, in the order
/// the move handler tries them.
pub open spec fn drag_move_target_of(s: DragState) -> DragMoveTarget {
    if s.agent_sep_drag {
        DragMoveTarget::AgentSeparator
    } else if s.panel_drag {
        DragMoveTarget::SlotPanel
    } else if s.tradetape_drag {
        DragMoveTarget::TradeTape
    } else if s.slot_sep_drag {
        DragMoveTarget::SlotSeparator
    } else if s.pty_selection_drag {
        DragMoveTarget::PtySelection
    } else if s.chat_selection_drag {
        DragMoveTarget::ChatSelection
    } else if s.dismissed_popup {
        DragMoveTarget::DismissedPopup
    } else if s.sidebar_separator_drag {
        DragMoveTarget::SidebarSeparator
    } else if s.watchlist_sep_drag {
        DragMoveTarget::WatchlistColumnSeparator
    } else if s.watchlist_modal_reorder is Some {
        DragMoveTarget::WatchlistModalRow
    } else if s.watchlist_drag is Some {
        DragMoveTarget::WatchlistRow
    } else {
        DragMoveTarget::Continue
    }
}

/// Decide which drag a pointer move updates.
pub fn drag_move_target(s: &DragState) -> (t: DragMoveTarget)
    ensures
        t == drag_move_target_of(*s),
{
    if s.agent_sep_drag {
        DragMoveTarget::AgentSeparator
    } else if s.panel_drag {
        DragMoveTarget::SlotPanel
    } else if s.tradetape_drag {
        DragMoveTarget::TradeTape
    } else if s.slot_sep_drag {
        DragMoveTarget::SlotSeparator
    } else if s.pty_selection_drag {
        DragMoveTarget::PtySelection
    } else if s.chat_selection_drag {
        DragMoveTarget::ChatSelection
    } else if s.dismissed_popup {
        DragMoveTarget::DismissedPopup
    } else if s.sidebar_separator_drag {
        DragMoveTarget::SidebarSeparator
    } else if s.watchlist_sep_drag {
        DragMoveTarget::WatchlistColumnSeparator
    } else if s.watchlist_modal_reorder.is_some() {
        DragMoveTarget::WatchlistModalRow
    } else if s.watchlist_drag.is_some() {
        DragMoveTarget::WatchlistRow
    } else {
        DragMoveTarget::Continue
    }
}

/// A move during a drag that a claim started from an idle state updates
/// that drag.
pub proof fn law_move_updates_claimed_drag(s: DragState)
    requires
        drags_in_progress(s) == 0,
    ensures
        drag_move_target_of(drag_after_claim_of(s, DragClaim::SidebarSeparator))
            == DragMoveTarget::SidebarSeparator,
        drag_move_target_of(drag_after_claim_of(s, DragClaim::PtySelection(0, 0)))
            == DragMoveTarget::PtySelection,
        drag_move_target_of(drag_after_claim_of(s, DragClaim::ChatSelection))
            == DragMoveTarget::ChatSelection,
        drag_move_target_of(s) == DragMoveTarget::Continue,
{
}

/// The release of a drag that a press started from an idle state
/// finishes what that drag changed: a moved agent-panel or slot separator
/// saves the sidebar layout, a panel drag is handed back to its panel, a
/// terminal or chat selection drops its empty selection, a press that only
/// closed a popup does nothing more, a moved sidebar separator saves the
/// profile, a moved watchlist column separator saves the watchlist
/// columns, and a watchlist row is moved to where it was dropped.
pub proof fn law_release_saves_what_the_drag_changed(s: DragState, c: DragClaim)
    requires
        drags_in_progress(s) == 0,
    ensures
        ({
            let e = drag_end_of(drag_after_claim_of(s, c)).1;
            match c {
                DragClaim::AgentSeparator(_) => e == DragEndEffect::SaveSidebarLayout,
                DragClaim::SlotSeparator(_, _) => e == DragEndEffect::SaveSidebarLayout,
                DragClaim::SlotPanel => e == DragEndEffect::EndPanelDrag,
                DragClaim::PtySelection(_, _) => e == DragEndEffect::EndPtySelection,
                DragClaim::ChatSelection => e == DragEndEffect::EndChatSelection,
                DragClaim::DismissPopup => e == DragEndEffect::Nothing,
                DragClaim::SidebarSeparator => e == DragEndEffect::SaveProfile,
                DragClaim::WatchlistColumnSeparator(_) => e == DragEndEffect::SaveWatchlistColumns,
                DragClaim::WatchlistRow(i) => e == DragEndEffect::ReorderRow(
                    reorder_move_of(i, Some(i), s.watchlist_len),
                ),
                _ => true,
            }
        }),
{
}

/// A watchlist column separator, a pane separator or the sidebar separator
/// released as the first drag in progress has its new position saved:
/// the watchlist columns for the first, the profile for the others.
pub proof fn law_separator_release_saves(s: DragState)
    requires
        !s.agent_sep_drag,
        !s.slot_sep_drag,
        !s.panel_drag,
        !s.tradetape_drag,
        !s.pty_selection_drag,
        !s.chat_selection_drag,
        !s.dismissed_popup,
    ensures
        !s.pane_separator_drag && !s.sidebar_separator_drag && s.watchlist_sep_drag ==> drag_end_of(s)
            == (DragState { watchlist_sep_drag: false, ui_drag_active: false, ..s }, DragEndEffect::SaveWatchlistColumns),
        s.pane_separator_drag || s.sidebar_separator_drag ==> drag_end_of(s).1 == DragEndEffect::SaveProfile,
{
}

/// What a press's claim says about the press: a separator claim names
/// the separator under the pointer, which exists; a selection starts in
/// the focused leaf of the matching mode, a terminal one at the pressed
/// cell; a watchlist claim needs the watchlist panel and names the row or
/// column under the pointer; scrollbar claims need an open sidebar and no
/// UI drag. And a press on agent separator `k` of the panel, when no
/// separator drag runs, always claims it.
pub proof fn law_claim_matches_press(s: DragStartState, hovered: Seq<char>, k: usize)
    ensures
        ({
            let c = drag_start_claim_of(s, hovered);
            &&& c matches DragClaim::AgentSeparator(j) ==> spec_agent_separator(hovered) == Some(j)
                && j < s.agent_separator_count && !s.agent_sep_dragging
            &&& c matches DragClaim::PtySelection(r, col) ==> s.focused_session_pty == Some(true)
                && s.pty_press_cell == Some((r, col))
            &&& c is ChatSelection ==> s.focused_session_pty == Some(false) && s.on_chat_content
            &&& c is SidebarSeparator ==> hovered == "right_sidebar_separator"@
            &&& c matches DragClaim::WatchlistColumnSeparator(j) ==> s.watchlist_panel_open
                && !s.watchlist_columns_aligned && spec_watchlist_separator(hovered) == Some(j)
            &&& c matches DragClaim::WatchlistRow(i) ==> s.watchlist_panel_open && spec_watchlist_row(
                hovered,
            ) == Some(i)
            &&& c matches DragClaim::SlotSeparator(a, b) ==> spec_slot_sep_indices(hovered) == Some((a, b))
                && slot_separator_exists(s, a, b) && !s.slot_sep_dragging
            &&& (c is AgentScrollbar || c is SignalGroupTrack || c is SidebarTrack) ==> s.sidebar_open
                && !s.ui_drag_active
            &&& c is SlotPanel ==> s.panel_grab && !s.panel_dragging
            &&& c is DismissPopup ==> s.popup_dismissed
        }),
        !s.agent_sep_dragging && spec_agent_separator(hovered) == Some(k) && k
            < s.agent_separator_count ==> drag_start_claim_of(s, hovered) == DragClaim::AgentSeparator(k),
{
}

/// A move during a drag that a press started from an idle state updates
/// that drag.
pub proof fn law_move_updates_the_claimed_drag(s: DragState, c: DragClaim)
    requires
        drags_in_progress(s) == 0,
    ensures
        ({
            let t = drag_move_target_of(drag_after_claim_of(s, c));
            match c {
                DragClaim::AgentSeparator(_) => t == DragMoveTarget::AgentSeparator,
                DragClaim::SlotSeparator(_, _) => t == DragMoveTarget::SlotSeparator,
                DragClaim::SlotPanel => t == DragMoveTarget::SlotPanel,
                DragClaim::PtySelection(_, _) => t == DragMoveTarget::PtySelection,
                DragClaim::ChatSelection => t == DragMoveTarget::ChatSelection,
                DragClaim::DismissPopup => t == DragMoveTarget::DismissedPopup,
                DragClaim::SidebarSeparator => t == DragMoveTarget::SidebarSeparator,
                DragClaim::WatchlistColumnSeparator(_) => t == DragMoveTarget::WatchlistColumnSeparator,
                DragClaim::WatchlistRow(_) => t == DragMoveTarget::WatchlistRow,
                _ => t == DragMoveTarget::Continue,
            }
        }),
{
}

} // verus!
