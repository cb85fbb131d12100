//! Verified input-handling logic of the chart application: which field a
//! key or character goes to, text-field editing, the widget-id grammar the
//! pointer handlers route by, the actions behind modal and context-menu
//! clicks, terminal and chat selection text, the order in which Escape and
//! outside clicks dismiss modals, undo/redo routing, sub-pane ordering and
//! the cursor over the UI.

pub mod actions;
pub mod canvas;
pub mod chart_app;
pub mod clicks;
pub mod chars;
pub mod copy;
pub mod cursor;
pub mod drag;
pub mod hex_color;
pub mod hover;
pub mod indicator_ids;
pub mod indicator_sets;
pub mod keys;
pub mod modal;
pub mod modal_hover;
pub mod names;
pub mod number;
pub mod panes;
pub mod preset;
pub mod profile;
pub mod routing;
pub mod selection;
pub mod strings;
pub mod text_edit;
pub mod undo;
pub mod watchlist;
pub mod widget_id;
