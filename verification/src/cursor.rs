//! The pointer cursor over the sidebars and modals: resize cursors over and
//! while dragging separators, the default cursor over UI widgets, and no
//! cursor while the crosshair is locked by the magnet. Over the chart the
//! chart's own hit testing decides.

use vstd::prelude::*;
use crate::strings::{chars_of, chars_eq};
use crate::widget_id::{
    starts_with, matches_at, spec_agent_separator, agent_separator, spec_slot_sep_indices,
    slot_sep_indices,
};

verus! {

/// Orientation of a docking separator.
#[derive(Debug, Clone, Copy, PartialEq, Eq)]
pub enum SeparatorOrientation {
    /// A horizontal bar between panels stacked vertically.
    Horizontal,
    /// A vertical bar between panels side by side.
    Vertical,
}

/// The cursors the UI layer chooses.
#[derive(Debug, Clone, Copy, PartialEq, Eq)]
pub enum Cursor {
    /// No system cursor: the crosshair is drawn at the snapped point.
    Hidden,
    Default,
    EwResize,
    NsResize,
}

/// What the cursor decision reads.
#[derive(Debug, Clone)]
pub struct CursorState {
    /// The crosshair is visible and locked by the magnet.
    pub magnet_snapped: bool,
    /// The agent-panel separator being dragged.
    pub agent_sep_drag: Option<usize>,
    /// The `(slot, separator)` being dragged in a free slot.
    pub slot_sep_drag: Option<(usize, usize)>,
    /// Orientations of the agent panel's separators, by index.
    pub agent_separators: Vec<SeparatorOrientation>,
    /// Orientations of each free slot's separators, by slot and index.
    pub slot_separators: Vec<Vec<SeparatorOrientation>>,
    pub sidebar_separator_drag_active: bool,
    pub watchlist_sep_drag_active: bool,
    /// The id of the hovered widget, if any.
    pub hovered: Option<String>,
    /// The watchlist modal or the group-name input is open.
    pub watchlist_modal_open: bool,
    /// The pointer is over a registered UI widget.
    pub over_ui: bool,
}

/// The resize cursor of a separator: left-right for a vertical one, up-down
/// otherwise (also when the separator is unknown).
pub open spec fn separator_cursor(o: Option<SeparatorOrientation>) -> Cursor {
    match o {
        Some(SeparatorOrientation::Vertical) => Cursor::EwResize,
        _ => Cursor::NsResize,
    }
}

/// The orientation of agent separator `i`, if it exists.
pub open spec fn agent_orientation(st: CursorState, i: usize) -> Option<SeparatorOrientation> {
    if i < st.agent_separators@.len() {
        Some(st.agent_separators@[i as int])
    } else {
        None
    }
}

/// The orientation of separator `i` of slot `slot`, if it exists.
pub open spec fn slot_orientation(st: CursorState, slot: usize, i: usize) -> Option<
    SeparatorOrientation,
> {
    if slot < st.slot_separators@.len() && i < st.slot_separators@[slot as int]@.len() {
        Some(st.slot_separators@[slot as int]@[i as int])
    } else {
        None
    }
}

/// The cursor the UI layer chooses, or `None` when the chart decides. In
/// order: the magnet hides it; a separator drag keeps its resize cursor;
/// the sidebar and watchlist-column separators show left-right arrows; the
/// watchlist modal shows the default cursor everywhere; a hovered agent or
/// slot separator shows its resize cursor; any other widget the default one.
pub open spec fn ui_cursor_of(st: CursorState) -> Option<Cursor> {
    let h = match st.hovered {
        Some(s) => s@,
        None => Seq::empty(),
    };
    if st.magnet_snapped {
        Some(Cursor::Hidden)
    } else if let Some(i) = st.agent_sep_drag {
        Some(separator_cursor(agent_orientation(st, i)))
    } else if let Some((a, b)) = st.slot_sep_drag {
        Some(separator_cursor(slot_orientation(st, a, b)))
    } else if st.sidebar_separator_drag_active || (st.hovered is Some && h
        == "right_sidebar_separator"@) {
        Some(Cursor::EwResize)
    } else if st.watchlist_sep_drag_active || (st.hovered is Some && starts_with(
        h,
        "watchlist_sep_"@,
    )) {
        Some(Cursor::EwResize)
    } else if st.watchlist_modal_open {
        Some(Cursor::Default)
    } else if st.hovered is Some && spec_agent_separator(h) is Some {
        Some(separator_cursor(agent_orientation(st, spec_agent_separator(h).unwrap())))
    } else if st.hovered is Some && spec_slot_sep_indices(h) is Some {
        let (a, b) = spec_slot_sep_indices(h).unwrap();
        Some(separator_cursor(slot_orientation(st, a, b)))
    } else if st.over_ui {
        Some(Cursor::Default)
    } else {
        None
    }
}

impl CursorState {
    /// The orientation of agent separator `i`.
    fn agent_orientation(&self, i: usize) -> (r: Option<SeparatorOrientation>)
        ensures
            r == agent_orientation(*self, i),
    {
        if i < self.agent_separators.len() {
            Some(self.agent_separators[i])
        } else {
            None
        }
    }

    /// The orientation of separator `i` of slot `slot`.
    fn slot_orientation(&self, slot: usize, i: usize) -> (r: Option<SeparatorOrientation>)
        ensures
            r == slot_orientation(*self, slot, i),
    {
        if slot < self.slot_separators.len() && i < self.slot_separators[slot].len() {
            Some(self.slot_separators[slot][i])
        } else {
            None
        }
    }

    /// Decide the cursor, or `None` to let the chart decide.
    pub fn ui_cursor(&self) -> (r: Option<Cursor>)
        ensures
            r == ui_cursor_of(*self),
    {
        if self.magnet_snapped {
            return Some(Cursor::Hidden);
        }
        if let Some(i) = self.agent_sep_drag {
            return Some(separator_cursor_of(self.agent_orientation(i)));
        }
        if let Some((a, b)) = self.slot_sep_drag {
            return Some(separator_cursor_of(self.slot_orientation(a, b)));
        }
        let on_sidebar_sep = match &self.hovered {
            Some(h) => chars_eq(&chars_of(h.as_str()), "right_sidebar_separator"),
            None => false,
        };
        if self.sidebar_separator_drag_active || on_sidebar_sep {
            return Some(Cursor::EwResize);
        }
        let on_column_sep = match &self.hovered {
            Some(h) => matches_at(&chars_of(h.as_str()), 0, &chars_of("watchlist_sep_")),
            None => false,
        };
        if self.watchlist_sep_drag_active || on_column_sep {
            return Some(Cursor::EwResize);
        }
        if self.watchlist_modal_open {
            return Some(Cursor::Default);
        }
        if let Some(h) = &self.hovered {
            if let Some(i) = agent_separator(h.as_str()) {
                return Some(separator_cursor_of(self.agent_orientation(i)));
            }
            if let Some((a, b)) = slot_sep_indices(h.as_str()) {
                return Some(separator_cursor_of(self.slot_orientation(a, b)));
            }
        }
        if self.over_ui {
            Some(Cursor::Default)
        } else {
            None
        }
    }
}

/// The resize cursor of a separator.
fn separator_cursor_of(o: Option<SeparatorOrientation>) -> (r: Cursor)
    ensures
        r == separator_cursor(o),
{
    match o {
        Some(SeparatorOrientation::Vertical) => Cursor::EwResize,
        _ => Cursor::NsResize,
    }
}

} // verus!
