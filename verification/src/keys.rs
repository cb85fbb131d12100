//! Named key events forwarded from the platform runner.

use vstd::prelude::*;

verus! {

/// Named key events that cannot be represented as a `char`.
#[derive(Debug, Clone, PartialEq, Eq)]
pub enum KeyPress {
    /// Delete character at cursor (forward delete)
    Delete,
    /// Move cursor one character to the left
    ArrowLeft,
    /// Move cursor one character to the right
    ArrowRight,
    /// Move cursor / scroll up
    ArrowUp,
    /// Move cursor / scroll down
    ArrowDown,
    /// Enter / Return key
    Enter,
    /// Escape key
    Escape,
    /// Tab key
    Tab,
    /// Backspace key
    Backspace,
    /// Ctrl+C interrupt
    CtrlC,
    /// Page Up
    PageUp,
    /// Page Down
    PageDown,
    /// Move cursor to start of text
    Home,
    /// Move cursor to end of text
    End,
    /// Select all text (Ctrl+A)
    SelectAll,
    /// Extend selection one character to the left (Shift+Left)
    ShiftLeft,
    /// Extend selection one character to the right (Shift+Right)
    ShiftRight,
    /// Extend selection to start of text (Shift+Home)
    ShiftHome,
    /// Extend selection to end of text (Shift+End)
    ShiftEnd,
    /// Copy selected text to clipboard (Ctrl+C)
    Copy,
    /// Paste text from clipboard (Ctrl+V)
    Paste(String),
    /// Undo last action (Ctrl+Z)
    Undo,
    /// Redo last undone action (Ctrl+Y / Ctrl+Shift+Z)
    Redo,
}

/// Key codes understood by the order-flow panels.
#[derive(Debug, Clone, Copy, PartialEq, Eq)]
pub enum PanelKey {
    ArrowUp,
    ArrowDown,
    ArrowLeft,
    ArrowRight,
    PageUp,
    PageDown,
    Home,
    End,
    Enter,
    Escape,
    Tab,
    Backspace,
    Delete,
    Unknown,
}

/// The panel key code that a named key is forwarded as.
pub open spec fn spec_panel_key(key: KeyPress) -> PanelKey {
    match key {
        KeyPress::ArrowUp => PanelKey::ArrowUp,
        KeyPress::ArrowDown => PanelKey::ArrowDown,
        KeyPress::ArrowLeft => PanelKey::ArrowLeft,
        KeyPress::ArrowRight => PanelKey::ArrowRight,
        KeyPress::PageUp => PanelKey::PageUp,
        KeyPress::PageDown => PanelKey::PageDown,
        KeyPress::Home => PanelKey::Home,
        KeyPress::End => PanelKey::End,
        KeyPress::Enter => PanelKey::Enter,
        KeyPress::Escape => PanelKey::Escape,
        KeyPress::Tab => PanelKey::Tab,
        KeyPress::Backspace => PanelKey::Backspace,
        KeyPress::Delete => PanelKey::Delete,
        _ => PanelKey::Unknown,
    }
}

/// Convert a named key into the code handed to the hovered order-flow panel.
pub fn panel_key(key: &KeyPress) -> (r: PanelKey)
    ensures
        r == spec_panel_key(*key),
{
    match key {
        KeyPress::ArrowUp => PanelKey::ArrowUp,
        KeyPress::ArrowDown => PanelKey::ArrowDown,
        KeyPress::ArrowLeft => PanelKey::ArrowLeft,
        KeyPress::ArrowRight => PanelKey::ArrowRight,
        KeyPress::PageUp => PanelKey::PageUp,
        KeyPress::PageDown => PanelKey::PageDown,
        KeyPress::Home => PanelKey::Home,
        KeyPress::End => PanelKey::End,
        KeyPress::Enter => PanelKey::Enter,
        KeyPress::Escape => PanelKey::Escape,
        KeyPress::Tab => PanelKey::Tab,
        KeyPress::Backspace => PanelKey::Backspace,
        KeyPress::Delete => PanelKey::Delete,
        _ => PanelKey::Unknown,
    }
}

} // verus!
