//! The part of the application state that the input handlers read and
//! change, held as plain values, and the handlers' decisions on it.

use vstd::prelude::*;
use std::collections::HashMap;
use crate::modal::{ModalFlags, EscapeAction, escape_action_of, after_escape};
use crate::selection::{
    PtySelection, ChatSelection, PtyGrid, ChatLine, grid_selection_text, grid_text, chat_text,
    chat_text_upto,
};

verus! {

broadcast use vstd::std_specs::hash::group_hash_axioms;

/// Crosshair of the active chart window.
#[derive(Debug, Clone, Copy, PartialEq, Eq)]
pub struct Crosshair {
    pub visible: bool,
    /// The crosshair is locked onto a price by the magnet.
    pub snapped: bool,
}

/// Dropdowns and popups that any click outside them dismisses (the
/// context menu and the search overlay, dismissed too, are among the
/// modal layers).
#[derive(Debug, Clone, PartialEq, Eq)]
pub struct TransientOverlays {
    pub open_dropdown_id: Option<String>,
    pub hovered_dropdown_item: Option<String>,
    pub open_inline_style_dropdown: bool,
    pub open_inline_width_dropdown: bool,
    pub hovered_inline_dropdown_item: Option<String>,
    pub watchlist_config_dropdown_open: bool,
    pub watchlist_color_picker_open: Option<usize>,
    pub slot_spawn_dropdown: Option<usize>,
    pub agent_model_dropdown: Option<u64>,
    pub agent_perm_dropdown: Option<u64>,
    pub agent_sessions_dropdown: Option<u64>,
}

/// Every transient overlay is closed.
pub open spec fn overlays_closed(o: TransientOverlays) -> bool {
    &&& o.open_dropdown_id is None
    &&& o.hovered_dropdown_item is None
    &&& !o.open_inline_style_dropdown
    &&& !o.open_inline_width_dropdown
    &&& o.hovered_inline_dropdown_item is None
    &&& !o.watchlist_config_dropdown_open
    &&& o.watchlist_color_picker_open is None
    &&& o.slot_spawn_dropdown is None
    &&& o.agent_model_dropdown is None
    &&& o.agent_perm_dropdown is None
    &&& o.agent_sessions_dropdown is None
}

impl TransientOverlays {
    /// The style chevron of the inline toolbar: both inline dropdowns close
    /// and the hovered item clears, then the style dropdown opens unless it
    /// was the one open.
    pub fn toggle_inline_style_menu(&mut self)
        ensures
            *final(self) == (TransientOverlays {
                open_inline_style_dropdown: !old(self).open_inline_style_dropdown,
                open_inline_width_dropdown: false,
                hovered_inline_dropdown_item: None,
                ..*old(self)
            }),
    {
        let was_open = self.open_inline_style_dropdown;
        self.close_inline_dropdowns();
        if !was_open {
            self.open_inline_style_dropdown = true;
        }
    }

    /// The width chevron of the inline toolbar, as the style chevron.
    pub fn toggle_inline_width_menu(&mut self)
        ensures
            *final(self) == (TransientOverlays {
                open_inline_style_dropdown: false,
                open_inline_width_dropdown: !old(self).open_inline_width_dropdown,
                hovered_inline_dropdown_item: None,
                ..*old(self)
            }),
    {
        let was_open = self.open_inline_width_dropdown;
        self.close_inline_dropdowns();
        if !was_open {
            self.open_inline_width_dropdown = true;
        }
    }

    /// Close both inline dropdowns and clear the hovered item.
    pub fn close_inline_dropdowns(&mut self)
        ensures
            *final(self) == (TransientOverlays {
                open_inline_style_dropdown: false,
                open_inline_width_dropdown: false,
                hovered_inline_dropdown_item: None,
                ..*old(self)
            }),
    {
        self.open_inline_style_dropdown = false;
        self.open_inline_width_dropdown = false;
        self.hovered_inline_dropdown_item = None;
    }
}

/// The agent session running in a leaf.
#[derive(Debug, Clone, Copy, PartialEq, Eq)]
pub struct AgentSession {
    /// The session's instance id.
    pub instance: u128,
    /// The agent runs in a pseudo-terminal rather than in chat mode.
    pub pty_mode: bool,
}

/// Input-relevant state of the chart application.
pub struct ChartApp {
    /// Agent leaf that owns keyboard focus.
    pub focused_agent_leaf: Option<u64>,
    /// The session of each agent leaf.
    pub agent_leaves: HashMap<u64, AgentSession>,
    /// Host-side terminal selection of each PTY leaf.
    pub agent_pty_selections: HashMap<u64, PtySelection>,
    /// Host-side chat selection of each chat leaf.
    pub agent_chat_selections: HashMap<u64, ChatSelection>,
    /// Latest terminal grid of each leaf whose snapshot is in PTY mode.
    pub agent_pty_grids: HashMap<u64, PtyGrid>,
    /// Word-wrapped chat lines laid out by the last sidebar render, if any.
    pub chat_line_rects: Option<Vec<ChatLine>>,
    /// The sidebar must be re-rendered.
    pub sidebar_data_dirty: bool,
    /// The right-sidebar separator is being dragged.
    pub sidebar_separator_drag_active: bool,
    /// Crosshair of the active window, if there is one.
    pub active_crosshair: Option<Crosshair>,
    /// Dismissable overlays.
    pub overlays: TransientOverlays,
    /// Modals and in-modal editors, in Escape order.
    pub modals: ModalFlags,
}

impl ChartApp {
    /// The text the focused leaf's terminal selection copies; empty when
    /// there is no focused leaf, no non-empty selection or no PTY grid.
    pub open spec fn spec_pty_selection_text(&self) -> Seq<char> {
        match self.focused_agent_leaf {
            Some(l) => if self.agent_pty_selections@.contains_key(l) && self.agent_pty_grids@.contains_key(l)
                && self.agent_pty_selections@[l].anchor != self.agent_pty_selections@[l].head {
                grid_selection_text(self.agent_pty_grids@[l], self.agent_pty_selections@[l])
            } else {
                Seq::empty()
            },
            None => Seq::empty(),
        }
    }

    /// The text the focused leaf's chat selection copies, with the leaf.
    pub open spec fn spec_chat_selection_text(&self) -> Option<(u64, Seq<char>)> {
        match self.focused_agent_leaf {
            Some(l) => if self.agent_chat_selections@.contains_key(l)
                && self.agent_chat_selections@[l].anchor != self.agent_chat_selections@[l].head
                && self.chat_line_rects is Some {
                let sel = self.agent_chat_selections@[l];
                let t = chat_text_upto(
                    self.chat_line_rects.unwrap()@,
                    l,
                    sel.spec_ordered().0,
                    sel.spec_ordered().1,
                    self.chat_line_rects.unwrap()@.len() as int,
                );
                if t.len() == 0 {
                    None
                } else {
                    Some((l, t))
                }
            } else {
                None
            },
            None => None,
        }
    }

    /// The session of the focused leaf, if it has one.
    pub open spec fn focused_session(&self) -> Option<AgentSession> {
        match self.focused_agent_leaf {
            Some(l) => if self.agent_leaves@.contains_key(l) {
                Some(self.agent_leaves@[l])
            } else {
                None
            },
            None => None,
        }
    }

    /// The focused leaf's session.
    fn focused_session_exec(&self) -> (r: Option<AgentSession>)
        ensures
            r == self.focused_session(),
    {
        match self.focused_agent_leaf {
            Some(l) => match self.agent_leaves.get(&l) {
                Some(d) => Some(*d),
                None => None,
            },
            None => None,
        }
    }

    /// The terminal session that keys and characters typed into the agent
    /// terminal are written to: the focused leaf's, when it runs in a
    /// pseudo-terminal.
    pub fn pty_write_target(&self) -> (r: Option<u128>)
        ensures
            r == match self.focused_session() {
                Some(d) => if d.pty_mode {
                    Some(d.instance)
                } else {
                    None
                },
                None => None,
            },
    {
        match self.focused_session_exec() {
            Some(d) => {
                if d.pty_mode {
                    Some(d.instance)
                } else {
                    None
                }
            },
            None => None,
        }
    }

    /// Where pasted text goes: the focused leaf's terminal session, unless
    /// the text is empty or the leaf has no terminal session.
    pub fn paste_to_pty(&self, text: &str) -> (r: Option<u128>)
        ensures
            r == if text@.len() > 0 {
                match self.focused_session() {
                    Some(d) => if d.pty_mode {
                        Some(d.instance)
                    } else {
                        None
                    },
                    None => None,
                }
            } else {
                None
            },
    {
        if text.is_empty() {
            return None;
        }
        self.pty_write_target()
    }

    /// Where Enter in the agent chat input sends the typed text: the focused
    /// leaf's session, whatever its mode, unless the text is empty.
    pub fn chat_send_target(&self, text: &str) -> (r: Option<u128>)
        ensures
            r == if text@.len() > 0 {
                match self.focused_session() {
                    Some(d) => Some(d.instance),
                    None => None,
                }
            } else {
                None
            },
    {
        if text.is_empty() {
            return None;
        }
        match self.focused_session_exec() {
            Some(d) => Some(d.instance),
            None => None,
        }
    }

    /// Clear any active host-side PTY selection for the focused leaf.
    pub fn clear_pty_selection(&mut self)
        ensures
            final(self).focused_agent_leaf == old(self).focused_agent_leaf,
            final(self).agent_chat_selections@ == old(self).agent_chat_selections@,
            final(self).agent_pty_grids@ == old(self).agent_pty_grids@,
            final(self).chat_line_rects == old(self).chat_line_rects,
            final(self).sidebar_separator_drag_active == old(self).sidebar_separator_drag_active,
            final(self).active_crosshair == old(self).active_crosshair,
            final(self).agent_leaves@ == old(self).agent_leaves@,
            final(self).overlays == old(self).overlays,
            final(self).modals == old(self).modals,
            final(self).agent_pty_selections@ == cleared_pty_selections(
                old(self).agent_pty_selections@,
                old(self).focused_agent_leaf,
            ),
            final(self).sidebar_data_dirty == (old(self).sidebar_data_dirty || (old(
                self,
            ).focused_agent_leaf matches Some(l) && old(self).agent_pty_selections@.contains_key(l))),
    {
        if let Some(leaf_id) = self.focused_agent_leaf {
            if self.agent_pty_selections.remove(&leaf_id).is_some() {
                self.sidebar_data_dirty = true;
            }
        }
    }

    /// End a terminal selection drag: the focused leaf's selection is
    /// dropped when it is missing or covers no cell, so that no overlay
    /// stays behind, and the sidebar is redrawn.
    pub fn end_pty_selection_drag(&mut self)
        ensures
            final(self).focused_agent_leaf == old(self).focused_agent_leaf,
            final(self).agent_chat_selections@ == old(self).agent_chat_selections@,
            final(self).agent_pty_grids@ == old(self).agent_pty_grids@,
            final(self).chat_line_rects == old(self).chat_line_rects,
            final(self).sidebar_separator_drag_active == old(self).sidebar_separator_drag_active,
            final(self).active_crosshair == old(self).active_crosshair,
            final(self).agent_leaves@ == old(self).agent_leaves@,
            final(self).overlays == old(self).overlays,
            final(self).modals == old(self).modals,
            final(self).agent_pty_selections@ == ended_pty_selections(
                old(self).agent_pty_selections@,
                old(self).focused_agent_leaf,
            ),
            final(self).sidebar_data_dirty,
    {
        if let Some(leaf_id) = self.focused_agent_leaf {
            let empty = match self.agent_pty_selections.get(&leaf_id) {
                Some(sel) => sel.is_empty(),
                None => true,
            };
            if empty {
                self.agent_pty_selections.remove(&leaf_id);
            }
        }
        self.sidebar_data_dirty = true;
    }

    /// End a chat selection drag: the focused leaf's selection is dropped
    /// when it is missing or covers no character, and the sidebar is
    /// redrawn.
    pub fn end_chat_selection_drag(&mut self)
        ensures
            final(self).focused_agent_leaf == old(self).focused_agent_leaf,
            final(self).agent_pty_selections@ == old(self).agent_pty_selections@,
            final(self).agent_pty_grids@ == old(self).agent_pty_grids@,
            final(self).chat_line_rects == old(self).chat_line_rects,
            final(self).sidebar_separator_drag_active == old(self).sidebar_separator_drag_active,
            final(self).active_crosshair == old(self).active_crosshair,
            final(self).agent_leaves@ == old(self).agent_leaves@,
            final(self).overlays == old(self).overlays,
            final(self).modals == old(self).modals,
            final(self).agent_chat_selections@ == ended_chat_selections(
                old(self).agent_chat_selections@,
                old(self).focused_agent_leaf,
            ),
            final(self).sidebar_data_dirty,
    {
        if let Some(leaf_id) = self.focused_agent_leaf {
            let empty = match self.agent_chat_selections.get(&leaf_id) {
                Some(sel) => sel.is_empty(),
                None => true,
            };
            if empty {
                self.agent_chat_selections.remove(&leaf_id);
            }
        }
        self.sidebar_data_dirty = true;
    }

    /// Whether the scrollbar and selection handlers treat `leaf` as a chat
    /// leaf: every leaf but one known to run a terminal session.
    pub fn leaf_is_chat(&self, leaf: u64) -> (r: bool)
        ensures
            r == !(self.agent_leaves@.contains_key(leaf) && self.agent_leaves@[leaf].pty_mode),
    {
        counts_as_chat(self.session_mode(leaf))
    }

    /// Whether `leaf` is known to run a chat session, as the double-click
    /// handler asks before it focuses the chat input.
    pub fn leaf_is_known_chat(&self, leaf: u64) -> (r: bool)
        ensures
            r == (self.agent_leaves@.contains_key(leaf) && !self.agent_leaves@[leaf].pty_mode),
    {
        known_chat(self.session_mode(leaf))
    }

    /// Whether `leaf` is known to run a terminal session.
    pub fn leaf_is_pty(&self, leaf: u64) -> (r: bool)
        ensures
            r == (self.agent_leaves@.contains_key(leaf) && self.agent_leaves@[leaf].pty_mode),
    {
        self.session_mode(leaf) == Some(true)
    }

    /// The mode of `leaf`'s session (`true` for a terminal), if it has one.
    fn session_mode(&self, leaf: u64) -> (r: Option<bool>)
        ensures
            r == if self.agent_leaves@.contains_key(leaf) {
                Some(self.agent_leaves@[leaf].pty_mode)
            } else {
                None
            },
    {
        match self.agent_leaves.get(&leaf) {
            Some(d) => Some(d.pty_mode),
            None => None,
        }
    }

    /// Check if the sidebar separator is being dragged.
    pub fn is_sidebar_separator_dragging(&self) -> (r: bool)
        ensures
            r == self.sidebar_separator_drag_active,
    {
        self.sidebar_separator_drag_active
    }

    /// Check if the crosshair magnet snap is currently active: the active
    /// window's crosshair is visible and snapped.
    pub fn is_magnet_snapped(&self) -> (r: bool)
        ensures
            r == (self.active_crosshair matches Some(c) && c.visible && c.snapped),
    {
        match self.active_crosshair {
            Some(c) => c.visible && c.snapped,
            None => false,
        }
    }

    /// Extract the currently selected PTY text from the focused leaf's grid.
    /// Returns an empty string if there is no selection or no grid.
    pub fn pty_selection_text(&self) -> (s: String)
        ensures
            s@ == self.spec_pty_selection_text(),
    {
        let leaf_id = match self.focused_agent_leaf {
            Some(id) => id,
            None => return String::new(),
        };
        let sel = match self.agent_pty_selections.get(&leaf_id) {
            Some(s) => {
                if s.is_empty() {
                    return String::new();
                }
                *s
            },
            None => return String::new(),
        };
        let grid = match self.agent_pty_grids.get(&leaf_id) {
            Some(g) => g,
            None => return String::new(),
        };
        grid_text(grid, &sel)
    }

    /// Extract the currently selected chat text from the focused leaf, using
    /// the word-wrapped lines of the last render. Returns `None` when there
    /// is no active selection or it covers no text.
    pub fn chat_selection_text(&self) -> (r: Option<(u64, String)>)
        ensures
            match r {
                Some((l, t)) => self.spec_chat_selection_text() == Some((l, t@)),
                None => self.spec_chat_selection_text() is None,
            },
    {
        let leaf_id = match self.focused_agent_leaf {
            Some(id) => id,
            None => return None,
        };
        let sel = match self.agent_chat_selections.get(&leaf_id) {
            Some(s) => *s,
            None => return None,
        };
        if sel.is_empty() {
            return None;
        }
        let rects = match &self.chat_line_rects {
            Some(r) => r,
            None => return None,
        };
        let text = chat_text(rects, leaf_id, &sel);
        if text.as_str().is_empty() {
            None
        } else {
            Some((leaf_id, text))
        }
    }

    /// Close the transient overlays (toolbar dropdowns, context menu, search
    /// overlay, sidebar dropdowns, agent popups); nothing else changes.
    pub fn close_transient_overlays(&mut self)
        ensures
            overlays_closed(final(self).overlays),
            final(self).modals == (ModalFlags {
                context_menu_open: false,
                search_modal_open: false,
                ..old(self).modals
            }),
            final(self).focused_agent_leaf == old(self).focused_agent_leaf,
            final(self).agent_pty_selections@ == old(self).agent_pty_selections@,
            final(self).agent_chat_selections@ == old(self).agent_chat_selections@,
            final(self).agent_pty_grids@ == old(self).agent_pty_grids@,
            final(self).chat_line_rects == old(self).chat_line_rects,
            final(self).sidebar_data_dirty == old(self).sidebar_data_dirty,
            final(self).sidebar_separator_drag_active == old(self).sidebar_separator_drag_active,
            final(self).active_crosshair == old(self).active_crosshair,
            final(self).agent_leaves@ == old(self).agent_leaves@,
    {
        self.overlays.open_dropdown_id = None;
        self.overlays.hovered_dropdown_item = None;
        self.overlays.open_inline_style_dropdown = false;
        self.overlays.open_inline_width_dropdown = false;
        self.overlays.hovered_inline_dropdown_item = None;
        self.modals.context_menu_open = false;
        self.modals.search_modal_open = false;
        self.overlays.watchlist_config_dropdown_open = false;
        self.overlays.watchlist_color_picker_open = None;
        self.overlays.slot_spawn_dropdown = None;
        self.overlays.agent_model_dropdown = None;
        self.overlays.agent_perm_dropdown = None;
        self.overlays.agent_sessions_dropdown = None;
    }

    /// Escape: dismiss the highest-priority open modal layer or editor, or,
    /// with nothing open, deselect the drawing tool (the returned action
    /// tells the caller which).
    pub fn on_escape(&mut self) -> (a: EscapeAction)
        ensures
            a == escape_action_of(old(self).modals),
            final(self).modals == after_escape(old(self).modals, a),
            final(self).focused_agent_leaf == old(self).focused_agent_leaf,
            final(self).agent_pty_selections@ == old(self).agent_pty_selections@,
            final(self).agent_chat_selections@ == old(self).agent_chat_selections@,
            final(self).agent_pty_grids@ == old(self).agent_pty_grids@,
            final(self).chat_line_rects == old(self).chat_line_rects,
            final(self).sidebar_data_dirty == old(self).sidebar_data_dirty,
            final(self).sidebar_separator_drag_active == old(self).sidebar_separator_drag_active,
            final(self).active_crosshair == old(self).active_crosshair,
            final(self).agent_leaves@ == old(self).agent_leaves@,
            final(self).overlays == old(self).overlays,
    {
        self.modals.escape()
    }
}

/// A session whose mode is `pty_mode` (`true` for a terminal, `None` when
/// unknown) counts as a chat session unless it is known to be a terminal.
pub fn counts_as_chat(pty_mode: Option<bool>) -> (r: bool)
    ensures
        r == (pty_mode != Some(true)),
{
    match pty_mode {
        Some(p) => !p,
        None => true,
    }
}

/// A session is known to be a chat session only when its mode is known.
pub fn known_chat(pty_mode: Option<bool>) -> (r: bool)
    ensures
        r == (pty_mode == Some(false)),
{
    match pty_mode {
        Some(p) => !p,
        None => false,
    }
}

/// The terminal selections left when a selection drag ends: the focused
/// leaf's goes when it is missing or empty.
pub open spec fn ended_pty_selections(
    sels: Map<u64, PtySelection>,
    focused: Option<u64>,
) -> Map<u64, PtySelection> {
    match focused {
        Some(l) => if !sels.contains_key(l) || sels[l].anchor == sels[l].head {
            sels.remove(l)
        } else {
            sels
        },
        None => sels,
    }
}

/// The chat selections left when a chat selection drag ends.
pub open spec fn ended_chat_selections(
    sels: Map<u64, ChatSelection>,
    focused: Option<u64>,
) -> Map<u64, ChatSelection> {
    match focused {
        Some(l) => if !sels.contains_key(l) || sels[l].anchor == sels[l].head {
            sels.remove(l)
        } else {
            sels
        },
        None => sels,
    }
}

/// The selections left by clearing the focused leaf's terminal selection.
pub open spec fn cleared_pty_selections(
    sels: Map<u64, PtySelection>,
    focused: Option<u64>,
) -> Map<u64, PtySelection> {
    match focused {
        Some(l) => sels.remove(l),
        None => sels,
    }
}

/// After the focused leaf's terminal selection is cleared, copying from the
/// terminal yields nothing, and clearing again changes nothing.
pub proof fn law_cleared_selection_copies_nothing(a: ChartApp, b: ChartApp)
    requires
        b.focused_agent_leaf == a.focused_agent_leaf,
        b.agent_pty_selections@ == cleared_pty_selections(
            a.agent_pty_selections@,
            a.focused_agent_leaf,
        ),
    ensures
        b.spec_pty_selection_text() == Seq::<char>::empty(),
        cleared_pty_selections(b.agent_pty_selections@, b.focused_agent_leaf)
            == b.agent_pty_selections@,
{
    if let Some(l) = a.focused_agent_leaf {
        assert(b.agent_pty_selections@.remove(l) =~= b.agent_pty_selections@);
    }
}

/// When a selection drag ends, the focused leaf keeps its selection only
/// if it covers something, and then unchanged; other leaves keep theirs.
pub proof fn law_ended_selection_is_not_empty(
    pty: Map<u64, PtySelection>,
    chat: Map<u64, ChatSelection>,
    focused: Option<u64>,
)
    ensures
        forall|l: u64|
            #![trigger ended_pty_selections(pty, focused).contains_key(l)]
            ended_pty_selections(pty, focused).contains_key(l) ==> pty.contains_key(l)
                && ended_pty_selections(pty, focused)[l] == pty[l] && (focused == Some(l)
                ==> pty[l].anchor != pty[l].head),
        forall|l: u64|
            #![trigger ended_chat_selections(chat, focused).contains_key(l)]
            ended_chat_selections(chat, focused).contains_key(l) ==> chat.contains_key(l)
                && ended_chat_selections(chat, focused)[l] == chat[l] && (focused == Some(l)
                ==> chat[l].anchor != chat[l].head),
        forall|l: u64|
            focused != Some(l) && #[trigger] pty.contains_key(l) ==> ended_pty_selections(
                pty,
                focused,
            ).contains_key(l),
{
}

} // verus!
