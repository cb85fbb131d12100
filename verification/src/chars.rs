//! Character classes used by the text-input logic.

use vstd::prelude::*;

verus! {

/// `char::is_control`: the Unicode general category `Cc`, which is exactly
/// U+0000..=U+001F and U+007F..=U+009F.
pub open spec fn spec_is_control(c: char) -> bool {
    (c as u32) <= 0x1F || (0x7F <= (c as u32) && (c as u32) <= 0x9F)
}

/// `char::is_whitespace`: the Unicode `White_Space` property.
pub open spec fn spec_is_whitespace(c: char) -> bool {
    let u = c as u32;
    ||| 0x09 <= u && u <= 0x0D
    ||| u == 0x20
    ||| u == 0x85
    ||| u == 0xA0
    ||| u == 0x1680
    ||| 0x2000 <= u && u <= 0x200A
    ||| u == 0x2028
    ||| u == 0x2029
    ||| u == 0x202F
    ||| u == 0x205F
    ||| u == 0x3000
}

/// Whether `c` is a control character (general category `Cc`).
pub fn is_control(c: char) -> (r: bool)
    ensures
        r == spec_is_control(c),
{
    let u = c as u32;
    u <= 0x1F || (0x7F <= u && u <= 0x9F)
}

/// Whether `c` carries the Unicode `White_Space` property.
pub fn is_whitespace(c: char) -> (r: bool)
    ensures
        r == spec_is_whitespace(c),
{
    let u = c as u32;
    (0x09 <= u && u <= 0x0D) || u == 0x20 || u == 0x85 || u == 0xA0 || u == 0x1680 || (0x2000
        <= u && u <= 0x200A) || u == 0x2028 || u == 0x2029 || u == 0x202F || u == 0x205F || u
        == 0x3000
}

} // verus!

verus! {

/// How a typed character is treated by the text fields.
#[derive(Debug, Clone, Copy, PartialEq, Eq)]
pub enum CharClass {
    /// `'\r'` or `'\n'`
    Enter,
    /// `'\x08'`
    Backspace,
    /// `'\t'`
    Tab,
    /// `'\x1b'`
    Escape,
    /// Any character that is not a control character.
    Printable,
    /// Any other control character.
    Control,
}

/// The class of a typed character.
pub open spec fn spec_classify_char(c: char) -> CharClass {
    if c == '\r' || c == '\n' {
        CharClass::Enter
    } else if c == '\u{8}' {
        CharClass::Backspace
    } else if c == '\t' {
        CharClass::Tab
    } else if c == '\u{1b}' {
        CharClass::Escape
    } else if !spec_is_control(c) {
        CharClass::Printable
    } else {
        CharClass::Control
    }
}

/// Classify a typed character.
pub fn classify_char(c: char) -> (r: CharClass)
    ensures
        r == spec_classify_char(c),
{
    if c == '\r' || c == '\n' {
        CharClass::Enter
    } else if c == '\u{8}' {
        CharClass::Backspace
    } else if c == '\t' {
        CharClass::Tab
    } else if c == '\u{1b}' {
        CharClass::Escape
    } else if !is_control(c) {
        CharClass::Printable
    } else {
        CharClass::Control
    }
}

} // verus!
