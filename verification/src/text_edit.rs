//! Single-line text editing: cursor and selection movement, deletion,
//! insertion and the named-key handling shared by every modal text field.
//!
//! Positions are counted in characters. A position past the end of the text
//! behaves as the end of the text, as byte-position lookups clamp there.

use vstd::prelude::*;
use crate::chars::{is_control, spec_is_control, CharClass, classify_char};
use crate::keys::KeyPress;
use crate::strings::{chars_of, push_char, string_from_range};

verus! {

/// Text, cursor and selection anchor of a text field being edited.
#[derive(Debug, Clone)]
pub struct TextEditing {
    /// The characters of the text.
    pub text: Vec<char>,
    /// Cursor position, in characters.
    pub cursor: usize,
    /// Selection anchor, in characters; the selection spans from the anchor
    /// to the cursor.
    pub selection_start: Option<usize>,
}

/// The abstract state of a text field.
pub struct EditView {
    pub text: Seq<char>,
    pub cursor: usize,
    pub anchor: Option<usize>,
}

impl View for TextEditing {
    type V = EditView;

    open spec fn view(&self) -> EditView {
        EditView { text: self.text@, cursor: self.cursor, anchor: self.selection_start }
    }
}

/// A position clamped to the text length.
pub open spec fn clamp_pos(p: usize, n: nat) -> int {
    if p <= n {
        p as int
    } else {
        n as int
    }
}

/// Cursor and anchor lie within the text.
pub open spec fn edit_wf(e: EditView) -> bool {
    &&& e.text.len() <= usize::MAX
    &&& e.cursor <= e.text.len()
    &&& (e.anchor matches Some(a) ==> a <= e.text.len())
}

/// There is an anchor and it differs from the cursor.
pub open spec fn has_selection_of(e: EditView) -> bool {
    e.anchor is Some && e.anchor != Some(e.cursor)
}

/// The selected range `(lo, hi)`, when there is a non-empty selection.
pub open spec fn selection_range_of(e: EditView) -> Option<(usize, usize)> {
    match e.anchor {
        Some(a) => if a == e.cursor {
            None
        } else if a < e.cursor {
            Some((a, e.cursor))
        } else {
            Some((e.cursor, a))
        },
        None => None,
    }
}

/// `t` without the characters between positions `lo` and `hi`.
pub open spec fn remove_between(t: Seq<char>, lo: usize, hi: usize) -> Seq<char> {
    t.take(clamp_pos(lo, t.len())) + t.skip(clamp_pos(hi, t.len()))
}

/// Delete the selected characters and put the cursor where they started.
pub open spec fn delete_selection_of(e: EditView) -> EditView {
    match selection_range_of(e) {
        Some((lo, hi)) => EditView { text: remove_between(e.text, lo, hi), cursor: lo, anchor: None },
        None => e,
    }
}

/// Select the whole text, cursor at the end.
pub open spec fn select_all_of(e: EditView) -> EditView {
    EditView { text: e.text, cursor: e.text.len() as usize, anchor: Some(0) }
}

/// The characters of `s` that are not control characters.
pub open spec fn printable(s: Seq<char>) -> Seq<char>
    decreases s.len(),
{
    if s.len() == 0 {
        Seq::empty()
    } else if spec_is_control(s.last()) {
        printable(s.drop_last())
    } else {
        printable(s.drop_last()).push(s.last())
    }
}

/// Insert `s` at the (clamped) cursor and move the cursor past it.
pub open spec fn insert_of(e: EditView, s: Seq<char>) -> EditView {
    let p = clamp_pos(e.cursor, e.text.len());
    EditView {
        text: e.text.take(p) + s + e.text.skip(p),
        cursor: (e.cursor + s.len()) as usize,
        anchor: e.anchor,
    }
}

/// Move the cursor to `target`, anchoring the selection at the old cursor
/// when there was no anchor; an anchor equal to the new cursor is dropped.
pub open spec fn shift_extend_of(e: EditView, target: usize) -> EditView {
    let a = if e.anchor is None {
        Some(e.cursor)
    } else {
        e.anchor
    };
    EditView { text: e.text, cursor: target, anchor: if a == Some(target) { None } else { a } }
}

/// Replace the selection, if any, by the printable characters of `s`.
pub open spec fn paste_of(e: EditView, s: Seq<char>) -> EditView {
    let e1 = if has_selection_of(e) {
        delete_selection_of(e)
    } else {
        e
    };
    insert_of(e1, printable(s))
}

/// The effect of a named key on a text field, and whether the field consumed it.
pub open spec fn apply_key_of(e: EditView, key: KeyPress) -> (EditView, bool) {
    let n = e.text.len();
    match key {
        KeyPress::Delete => (
            if has_selection_of(e) {
                delete_selection_of(e)
            } else if e.cursor < n {
                EditView { text: e.text.remove(e.cursor as int), ..e }
            } else {
                e
            },
            true,
        ),
        KeyPress::ArrowLeft => (
            match selection_range_of(e) {
                Some((lo, _)) => EditView { cursor: lo, anchor: None, ..e },
                None => if e.cursor > 0 {
                    EditView { cursor: (e.cursor - 1) as usize, ..e }
                } else {
                    e
                },
            },
            true,
        ),
        KeyPress::ArrowRight => (
            match selection_range_of(e) {
                Some((_, hi)) => EditView { cursor: hi, anchor: None, ..e },
                None => if e.cursor < n {
                    EditView { cursor: (e.cursor + 1) as usize, ..e }
                } else {
                    e
                },
            },
            true,
        ),
        KeyPress::Home => (EditView { cursor: 0, anchor: None, ..e }, true),
        KeyPress::End => (EditView { cursor: n as usize, anchor: None, ..e }, true),
        KeyPress::SelectAll => (select_all_of(e), true),
        KeyPress::ShiftLeft => (
            shift_extend_of(
                e,
                if e.cursor > 0 {
                    (e.cursor - 1) as usize
                } else {
                    e.cursor
                },
            ),
            true,
        ),
        KeyPress::ShiftRight => (
            shift_extend_of(
                e,
                if e.cursor < n {
                    (e.cursor + 1) as usize
                } else {
                    e.cursor
                },
            ),
            true,
        ),
        KeyPress::ShiftHome => (shift_extend_of(e, 0), true),
        KeyPress::ShiftEnd => (shift_extend_of(e, n as usize), true),
        KeyPress::Paste(s) => (paste_of(e, s@), true),
        _ => (e, false),
    }
}

/// Backspace: delete the selection, else the character before the cursor.
pub open spec fn backspace_of(e: EditView) -> EditView {
    if has_selection_of(e) {
        delete_selection_of(e)
    } else if e.cursor > 0 {
        EditView {
            text: remove_between(e.text, (e.cursor - 1) as usize, e.cursor),
            cursor: (e.cursor - 1) as usize,
            anchor: e.anchor,
        }
    } else {
        e
    }
}

/// Typing a printable character: it replaces the selection, if any.
pub open spec fn type_char_of(e: EditView, c: char) -> EditView {
    let e1 = if has_selection_of(e) {
        delete_selection_of(e)
    } else {
        e
    };
    insert_of(e1, seq![c])
}

/// The effect of a typed character on a search-style field: backspace edits,
/// printable characters are inserted, everything else leaves it unchanged.
pub open spec fn edit_char_of(e: EditView, c: char) -> EditView {
    if c == '\u{8}' {
        backspace_of(e)
    } else if !spec_is_control(c) {
        type_char_of(e, c)
    } else {
        e
    }
}

/// Forward delete of the compare-settings fields: the character under the
/// cursor goes, the cursor and the anchor stay; the selection is not
/// consulted.
pub open spec fn delete_forward_char_of(e: EditView) -> EditView {
    if e.cursor < e.text.len() {
        EditView { text: e.text.remove(e.cursor as int), cursor: e.cursor, anchor: e.anchor }
    } else {
        e
    }
}

/// The selected characters, if the selection is non-empty.
pub open spec fn selected_text_of(e: EditView) -> Option<Seq<char>> {
    match selection_range_of(e) {
        Some((lo, hi)) => Some(
            e.text.subrange(clamp_pos(lo, e.text.len()), clamp_pos(hi, e.text.len())),
        ),
        None => None,
    }
}

/// `t[..lo] + t[hi..]` with both positions clamped to the length.
fn vec_remove_between(t: &Vec<char>, lo: usize, hi: usize) -> (r: Vec<char>)
    requires
        lo <= hi,
    ensures
        r@ == remove_between(t@, lo, hi),
{
    let n = t.len();
    let a = if lo <= n {
        lo
    } else {
        n
    };
    let b = if hi <= n {
        hi
    } else {
        n
    };
    let mut r: Vec<char> = Vec::new();
    let mut i: usize = 0;
    while i < a
        invariant
            i <= a <= n == t@.len(),
            r@ == t@.take(i as int),
        decreases a - i,
    {
        r.push(t[i]);
        assert(t@.take(i as int + 1) =~= t@.take(i as int).push(t@[i as int]));
        i = i + 1;
    }
    let mut j: usize = b;
    while j < n
        invariant
            a <= b <= j <= n == t@.len(),
            r@ == t@.take(a as int) + t@.subrange(b as int, j as int),
        decreases n - j,
    {
        r.push(t[j]);
        assert(t@.subrange(b as int, j as int + 1) =~= t@.subrange(b as int, j as int).push(
            t@[j as int],
        ));
        j = j + 1;
    }
    assert(t@.subrange(b as int, n as int) =~= t@.skip(b as int));
    r
}

/// `t[..p] + s + t[p..]` with `p` clamped to the length of `t`.
fn vec_insert_at(t: &Vec<char>, p: usize, s: &Vec<char>) -> (r: Vec<char>)
    ensures
        r@ == t@.take(clamp_pos(p, t@.len())) + s@ + t@.skip(clamp_pos(p, t@.len())),
{
    let n = t.len();
    let a = if p <= n {
        p
    } else {
        n
    };
    let mut r: Vec<char> = Vec::new();
    let mut i: usize = 0;
    while i < a
        invariant
            i <= a <= n == t@.len(),
            r@ == t@.take(i as int),
        decreases a - i,
    {
        r.push(t[i]);
        assert(t@.take(i as int + 1) =~= t@.take(i as int).push(t@[i as int]));
        i = i + 1;
    }
    let mut k: usize = 0;
    while k < s.len()
        invariant
            a <= n == t@.len(),
            k <= s@.len(),
            r@ == t@.take(a as int) + s@.take(k as int),
        decreases s@.len() - k,
    {
        r.push(s[k]);
        assert(s@.take(k as int + 1) =~= s@.take(k as int).push(s@[k as int]));
        k = k + 1;
    }
    assert(s@.take(s@.len() as int) =~= s@);
    let mut j: usize = a;
    while j < n
        invariant
            a <= j <= n == t@.len(),
            r@ == t@.take(a as int) + s@ + t@.subrange(a as int, j as int),
        decreases n - j,
    {
        r.push(t[j]);
        assert(t@.subrange(a as int, j as int + 1) =~= t@.subrange(a as int, j as int).push(
            t@[j as int],
        ));
        j = j + 1;
    }
    assert(t@.subrange(a as int, n as int) =~= t@.skip(a as int));
    r
}

/// The printable characters of `v`.
fn printable_chars(v: &Vec<char>) -> (r: Vec<char>)
    ensures
        r@ == printable(v@),
{
    let mut r: Vec<char> = Vec::new();
    let mut i: usize = 0;
    while i < v.len()
        invariant
            i <= v@.len(),
            r@ == printable(v@.take(i as int)),
        decreases v@.len() - i,
    {
        let c = v[i];
        proof {
            let t = v@.take(i as int + 1);
            assert(t.drop_last() =~= v@.take(i as int));
            assert(t.last() == c);
        }
        if !is_control(c) {
            r.push(c);
        }
        i = i + 1;
    }
    assert(v@.take(v@.len() as int) =~= v@);
    r
}

impl TextEditing {
    /// A field holding `text` with the cursor at its end and no selection.
    pub fn new(text: &str) -> (r: TextEditing)
        ensures
            r@.text == text@,
            r@.cursor == text@.len(),
            r@.anchor is None,
    {
        let v = chars_of(text);
        let n = v.len();
        TextEditing { text: v, cursor: n, selection_start: None }
    }

    /// The text as a `String`.
    pub fn text_string(&self) -> (s: String)
        ensures
            s@ == self@.text,
    {
        let s = string_from_range(&self.text, 0, self.text.len());
        assert(self.text@.subrange(0, self.text@.len() as int) =~= self.text@);
        s
    }

    /// Whether there is a non-empty selection.
    pub fn has_selection(&self) -> (r: bool)
        ensures
            r == has_selection_of(self@),
    {
        match self.selection_start {
            Some(a) => a != self.cursor,
            None => false,
        }
    }

    /// The selected range `(lo, hi)`, if the selection is non-empty.
    pub fn selection_range(&self) -> (r: Option<(usize, usize)>)
        ensures
            r == selection_range_of(self@),
    {
        match self.selection_start {
            Some(a) => {
                if a == self.cursor {
                    None
                } else if a < self.cursor {
                    Some((a, self.cursor))
                } else {
                    Some((self.cursor, a))
                }
            },
            None => None,
        }
    }

    /// Delete the selection and put the cursor at its start; no-op without one.
    pub fn delete_selection(&mut self)
        ensures
            final(self)@ == delete_selection_of(old(self)@),
    {
        if let Some((lo, hi)) = self.selection_range() {
            self.text = vec_remove_between(&self.text, lo, hi);
            self.cursor = lo;
            self.selection_start = None;
        }
    }

    /// Select the whole text.
    pub fn select_all(&mut self)
        ensures
            final(self)@ == select_all_of(old(self)@),
    {
        self.selection_start = Some(0);
        self.cursor = self.text.len();
    }

    /// Move the cursor to `target` while extending the selection.
    fn shift_extend(&mut self, target: usize)
        ensures
            final(self)@ == shift_extend_of(old(self)@, target),
    {
        if self.selection_start.is_none() {
            self.selection_start = Some(self.cursor);
        }
        self.cursor = target;
        if self.selection_start == Some(self.cursor) {
            self.selection_start = None;
        }
    }

    /// Insert `s` at the cursor and move the cursor past it.
    fn insert_chars(&mut self, s: &Vec<char>)
        requires
            old(self).cursor + s@.len() <= usize::MAX,
        ensures
            final(self)@ == insert_of(old(self)@, s@),
    {
        self.text = vec_insert_at(&self.text, self.cursor, s);
        self.cursor = self.cursor + s.len();
    }

    /// Apply a named key to the field. Returns whether the field consumed
    /// the key; keys it does not consume leave it unchanged.
    pub fn apply_key(&mut self, key: KeyPress) -> (consumed: bool)
        requires
            key matches KeyPress::Paste(s) ==> old(self).cursor + s@.len() <= usize::MAX,
        ensures
            (final(self)@, consumed) == apply_key_of(old(self)@, key),
            edit_wf(old(self)@) ==> edit_wf(final(self)@),
    {
        let char_count = self.text.len();
        let consumed = match key {
            KeyPress::Delete => {
                if self.has_selection() {
                    self.delete_selection();
                } else if self.cursor < char_count {
                    let p = self.cursor;
                    self.text.remove(p);
                }
                proof {
                    lemma_delete_selection_wf(old(self)@);
                }
                true
            },
            KeyPress::ArrowLeft => {
                if self.has_selection() {
                    let (lo, _) = self.selection_range().unwrap();
                    self.cursor = lo;
                    self.selection_start = None;
                } else if self.cursor > 0 {
                    self.cursor = self.cursor - 1;
                }
                true
            },
            KeyPress::ArrowRight => {
                if self.has_selection() {
                    let (_, hi) = self.selection_range().unwrap();
                    self.cursor = hi;
                    self.selection_start = None;
                } else if self.cursor < char_count {
                    self.cursor = self.cursor + 1;
                }
                true
            },
            KeyPress::Home => {
                self.cursor = 0;
                self.selection_start = None;
                true
            },
            KeyPress::End => {
                self.cursor = char_count;
                self.selection_start = None;
                true
            },
            KeyPress::SelectAll => {
                self.select_all();
                true
            },
            KeyPress::ShiftLeft => {
                let target = if self.cursor > 0 {
                    self.cursor - 1
                } else {
                    self.cursor
                };
                self.shift_extend(target);
                true
            },
            KeyPress::ShiftRight => {
                let target = if self.cursor < char_count {
                    self.cursor + 1
                } else {
                    self.cursor
                };
                self.shift_extend(target);
                true
            },
            KeyPress::ShiftHome => {
                self.shift_extend(0);
                true
            },
            KeyPress::ShiftEnd => {
                self.shift_extend(char_count);
                true
            },
            KeyPress::Copy => false,
            KeyPress::Paste(s) => {
                let pasted = chars_of(s.as_str());
                let ins = printable_chars(&pasted);
                proof {
                    lemma_printable_len(pasted@);
                }
                if self.has_selection() {
                    self.delete_selection();
                }
                self.insert_chars(&ins);
                proof {
                    lemma_delete_selection_wf(old(self)@);
                }
                true
            },
            KeyPress::Undo | KeyPress::Redo => false,
            KeyPress::ArrowUp
            | KeyPress::ArrowDown
            | KeyPress::Enter
            | KeyPress::Escape
            | KeyPress::Tab
            | KeyPress::Backspace
            | KeyPress::CtrlC
            | KeyPress::PageUp
            | KeyPress::PageDown => false,
        };
        assert(self.text@.len() == self.text.len());
        consumed
    }

    /// Backspace: delete the selection, else the character before the cursor.
    pub fn backspace(&mut self)
        ensures
            final(self)@ == backspace_of(old(self)@),
            edit_wf(old(self)@) && old(self)@.anchor != Some(old(self)@.cursor) ==> edit_wf(
                final(self)@,
            ),
    {
        if self.has_selection() {
            self.delete_selection();
            proof {
                lemma_delete_selection_wf(old(self)@);
            }
        } else if self.cursor > 0 {
            self.text = vec_remove_between(&self.text, self.cursor - 1, self.cursor);
            self.cursor = self.cursor - 1;
        }
    }

    /// Type a printable character: it replaces the selection, if any.
    pub fn type_char(&mut self, c: char)
        requires
            old(self).cursor < usize::MAX,
        ensures
            final(self)@ == type_char_of(old(self)@, c),
            edit_wf(old(self)@) ==> edit_wf(final(self)@),
    {
        if self.has_selection() {
            self.delete_selection();
            proof {
                lemma_delete_selection_wf(old(self)@);
            }
        }
        let mut one: Vec<char> = Vec::new();
        one.push(c);
        assert(one@ =~= seq![c]);
        self.insert_chars(&one);
        assert(self.text@.len() == self.text.len());
    }

    /// Delete the character under the cursor, if there is one.
    pub fn delete_forward_char(&mut self)
        ensures
            final(self)@ == delete_forward_char_of(old(self)@),
    {
        if self.cursor < self.text.len() {
            self.text.remove(self.cursor);
        }
    }

    /// Feed a typed character to a search-style field: backspace deletes,
    /// printable characters are inserted, other characters are ignored.
    /// Returns the class of the character so the caller can act on Enter,
    /// Tab or Escape.
    pub fn edit_char(&mut self, c: char) -> (class: CharClass)
        requires
            old(self).cursor < usize::MAX,
        ensures
            class == crate::chars::spec_classify_char(c),
            final(self)@ == edit_char_of(old(self)@, c),
            edit_wf(old(self)@) && old(self)@.anchor != Some(old(self)@.cursor) ==> edit_wf(
                final(self)@,
            ),
    {
        let class = classify_char(c);
        if c == '\u{8}' {
            self.backspace();
        } else if !is_control(c) {
            self.type_char(c);
        }
        class
    }

    /// The selected text, if the selection is non-empty.
    pub fn selected_text(&self) -> (r: Option<String>)
        ensures
            match r {
                Some(s) => selected_text_of(self@) == Some(s@),
                None => selected_text_of(self@) is None,
            },
    {
        match self.selection_range() {
            Some((lo, hi)) => {
                let n = self.text.len();
                let a = if lo <= n {
                    lo
                } else {
                    n
                };
                let b = if hi <= n {
                    hi
                } else {
                    n
                };
                Some(string_from_range(&self.text, a, b))
            },
            None => None,
        }
    }
}

/// The printable characters of `s` are at most as many as `s`.
pub proof fn lemma_printable_len(s: Seq<char>)
    ensures
        printable(s).len() <= s.len(),
    decreases s.len(),
{
    if s.len() > 0 {
        lemma_printable_len(s.drop_last());
    }
}

/// Deleting a selection of a well-formed field leaves it well-formed.
pub proof fn lemma_delete_selection_wf(e: EditView)
    ensures
        edit_wf(e) ==> edit_wf(delete_selection_of(e)),
        edit_wf(e) && has_selection_of(e) ==> delete_selection_of(e).text.len() < e.text.len(),
{
}

/// Select-all followed by forward delete empties the field and leaves the
/// cursor at the start.
pub proof fn law_select_all_then_delete_clears(e: EditView)
    requires
        edit_wf(e),
    ensures
        ({
            let e2 = apply_key_of(apply_key_of(e, KeyPress::SelectAll).0, KeyPress::Delete).0;
            e2.text.len() == 0 && e2.cursor == 0
        }),
{
    let e1 = apply_key_of(e, KeyPress::SelectAll).0;
    if e.text.len() > 0 {
        assert(selection_range_of(e1) == Some((0usize, e.text.len() as usize)));
        assert(remove_between(e1.text, 0, e.text.len() as usize) =~= Seq::<char>::empty());
    }
}

/// Home puts the cursor at the start and End at the end of the text; both
/// drop the selection.
pub proof fn law_home_end_positions(e: EditView)
    ensures
        apply_key_of(e, KeyPress::Home).0 == (EditView { cursor: 0, anchor: None, ..e }),
        apply_key_of(e, KeyPress::End).0 == (EditView {
            cursor: e.text.len() as usize,
            anchor: None,
            ..e
        }),
{
}

/// The arrow keys move the cursor without touching the text. In a field
/// with no selection, Left moves the cursor one character back (when it is
/// not at the start) and Right one character forward (when it is not at
/// the end), keeping the anchor; Right then Left puts the cursor back where
/// it was, and restores the whole field when it had no anchor. With a
/// selection, Left collapses it to its start and Right to its end.
pub proof fn law_arrows_move_by_one(e: EditView)
    requires
        edit_wf(e),
    ensures
        apply_key_of(e, KeyPress::ArrowLeft).0.text == e.text,
        apply_key_of(e, KeyPress::ArrowRight).0.text == e.text,
        apply_key_of(e, KeyPress::ArrowLeft).1 && apply_key_of(e, KeyPress::ArrowRight).1,
        !has_selection_of(e) && e.cursor > 0 ==> apply_key_of(e, KeyPress::ArrowLeft).0.cursor + 1
            == e.cursor && apply_key_of(e, KeyPress::ArrowLeft).0.anchor == e.anchor,
        !has_selection_of(e) && e.cursor == 0 ==> apply_key_of(e, KeyPress::ArrowLeft).0 == e,
        !has_selection_of(e) && e.cursor < e.text.len() ==> apply_key_of(e, KeyPress::ArrowRight).0.cursor
            == e.cursor + 1 && apply_key_of(e, KeyPress::ArrowRight).0.anchor == e.anchor,
        !has_selection_of(e) && e.cursor == e.text.len() ==> apply_key_of(e, KeyPress::ArrowRight).0 == e,
        !has_selection_of(e) && e.cursor < e.text.len() ==> apply_key_of(
            apply_key_of(e, KeyPress::ArrowRight).0,
            KeyPress::ArrowLeft,
        ).0.cursor == e.cursor,
        e.anchor is None && e.cursor < e.text.len() ==> apply_key_of(
            apply_key_of(e, KeyPress::ArrowRight).0,
            KeyPress::ArrowLeft,
        ).0 == e,
        has_selection_of(e) ==> apply_key_of(e, KeyPress::ArrowLeft).0.anchor is None
            && apply_key_of(e, KeyPress::ArrowRight).0.anchor is None
            && apply_key_of(e, KeyPress::ArrowLeft).0.cursor <= apply_key_of(e, KeyPress::ArrowRight).0.cursor
            && (apply_key_of(e, KeyPress::ArrowLeft).0.cursor == e.cursor
                || apply_key_of(e, KeyPress::ArrowLeft).0.cursor == e.anchor.unwrap())
            && (apply_key_of(e, KeyPress::ArrowRight).0.cursor == e.cursor
                || apply_key_of(e, KeyPress::ArrowRight).0.cursor == e.anchor.unwrap())
            && apply_key_of(e, KeyPress::ArrowLeft).0.cursor != apply_key_of(e, KeyPress::ArrowRight).0.cursor,
{
}

/// Delete without a selection removes the character under the cursor and
/// keeps the cursor, and at the end of the text does nothing; with a
/// selection it removes the selection as Backspace does. Shift+Left and
/// Shift+Right move the cursor one character, anchoring the selection at
/// the old cursor when there was none, and never change the text.
pub proof fn law_delete_and_shift_arrows(e: EditView)
    requires
        edit_wf(e),
    ensures
        !has_selection_of(e) && e.cursor < e.text.len() ==> apply_key_of(e, KeyPress::Delete).0.text
            == e.text.take(e.cursor as int) + e.text.skip(e.cursor as int + 1)
            && apply_key_of(e, KeyPress::Delete).0.cursor == e.cursor,
        !has_selection_of(e) && e.cursor == e.text.len() ==> apply_key_of(e, KeyPress::Delete).0 == e,
        has_selection_of(e) ==> apply_key_of(e, KeyPress::Delete).0 == backspace_of(e),
        apply_key_of(e, KeyPress::ShiftLeft).0.text == e.text,
        apply_key_of(e, KeyPress::ShiftRight).0.text == e.text,
        e.cursor > 0 ==> apply_key_of(e, KeyPress::ShiftLeft).0.cursor + 1 == e.cursor,
        e.cursor < e.text.len() ==> apply_key_of(e, KeyPress::ShiftRight).0.cursor == e.cursor + 1,
        e.anchor is None && e.cursor > 0 ==> apply_key_of(e, KeyPress::ShiftLeft).0.anchor == Some(e.cursor),
        e.anchor is None && e.cursor < e.text.len() ==> apply_key_of(e, KeyPress::ShiftRight).0.anchor
            == Some(e.cursor),
{
    if !has_selection_of(e) && e.cursor < e.text.len() {
        assert(e.text.remove(e.cursor as int) =~= e.text.take(e.cursor as int) + e.text.skip(
            e.cursor as int + 1,
        ));
    }
}

/// Typing a printable character and then pressing backspace in a field
/// with no selection restores its text and cursor, and the whole field when
/// it had no anchor. (With the cursor at `usize::MAX` the cursor cannot
/// move past the character, the one case left out.)
pub proof fn law_type_then_backspace_restores(e: EditView, c: char)
    requires
        edit_wf(e),
        !has_selection_of(e),
        !spec_is_control(c),
        e.cursor < usize::MAX,
    ensures
        backspace_of(type_char_of(e, c)).text == e.text,
        backspace_of(type_char_of(e, c)).cursor == e.cursor,
        e.anchor is None ==> backspace_of(type_char_of(e, c)) == e,
{
    let e1 = type_char_of(e, c);
    let p = e.cursor as int;
    assert(e1.text =~= e.text.take(p) + seq![c] + e.text.skip(p));
    assert(remove_between(e1.text, e.cursor, (e.cursor + 1) as usize) =~= e.text);
}

/// Shift+Right followed by Shift+Left restores a field that had no
/// selection anchor and whose cursor was not at the end.
pub proof fn law_shift_right_then_left_restores(e: EditView)
    requires
        edit_wf(e),
        e.anchor is None,
        e.cursor < e.text.len(),
    ensures
        apply_key_of(apply_key_of(e, KeyPress::ShiftRight).0, KeyPress::ShiftLeft).0 == e,
{
}

/// After select-all, the selected text of a non-empty field is the whole text.
pub proof fn law_select_all_selects_everything(e: EditView)
    requires
        edit_wf(e),
        e.text.len() > 0,
    ensures
        selected_text_of(apply_key_of(e, KeyPress::SelectAll).0) == Some(e.text),
{
    assert(e.text.subrange(0, e.text.len() as int) =~= e.text);
}

/// Pasting replaces the selection by the printable characters of the pasted
/// text: the text length changes by exactly that much and the cursor ends
/// just after the inserted characters.
pub proof fn law_paste_replaces_selection(e: EditView, s: Seq<char>)
    requires
        edit_wf(e),
        e.cursor + s.len() <= usize::MAX,
    ensures
        ({
            let r = paste_of(e, s);
            let k = printable(s).len();
            match selection_range_of(e) {
                Some((lo, hi)) => r.text.len() == e.text.len() - (hi - lo) + k && r.cursor == lo
                    + k,
                None => r.text.len() == e.text.len() + k && r.cursor == e.cursor + k,
            }
        }),
{
    lemma_printable_len(s);
}

/// A key the field does not consume leaves it unchanged.
pub proof fn law_unconsumed_keys_leave_field_unchanged(e: EditView, key: KeyPress)
    ensures
        !apply_key_of(e, key).1 ==> apply_key_of(e, key).0 == e,
{
}

/// With a selection, Delete and Backspace both remove exactly the selected
/// characters and leave the cursor where the selection began.
pub proof fn law_delete_and_backspace_agree_on_selection(e: EditView)
    requires
        has_selection_of(e),
    ensures
        apply_key_of(e, KeyPress::Delete).0 == backspace_of(e),
        backspace_of(e) == delete_selection_of(e),
{
}

/// Typing the characters of `s` one after the other.
pub open spec fn type_all(e: EditView, s: Seq<char>) -> EditView
    decreases s.len(),
{
    if s.len() == 0 {
        e
    } else {
        type_all(type_char_of(e, s[0]), s.drop_first())
    }
}

/// Without an anchor, typing characters one by one inserts them at once.
proof fn lemma_type_all_inserts(f: EditView, p: Seq<char>)
    requires
        f.anchor is None,
        f.cursor + p.len() <= usize::MAX,
    ensures
        type_all(f, p) == insert_of(f, p),
    decreases p.len(),
{
    if p.len() == 0 {
        let q = clamp_pos(f.cursor, f.text.len());
        assert(f.text.take(q) + p + f.text.skip(q) =~= f.text);
    } else {
        let f1 = type_char_of(f, p[0]);
        assert(f1 == insert_of(f, seq![p[0]]));
        let rest = p.drop_first();
        lemma_type_all_inserts(f1, rest);
        let q = clamp_pos(f.cursor, f.text.len());
        let t1 = f.text.take(q) + seq![p[0]] + f.text.skip(q);
        assert(f1.text == t1);
        let q1 = clamp_pos(f1.cursor, t1.len());
        assert(q1 == q + 1);
        assert(t1.take(q1) =~= f.text.take(q) + seq![p[0]]);
        assert(t1.skip(q1) =~= f.text.skip(q));
        assert(seq![p[0]] + rest =~= p);
        assert(insert_of(f1, rest).text =~= insert_of(f, p).text);
    }
}

/// Pasting text types its printable characters one by one. Two inputs
/// are left out: a field with an anchor at the cursor, a stale anchor that
/// turns into a selection once the first character is typed; and a paste
/// without printable characters over a selection, which still deletes it.
pub proof fn law_paste_types_each_character(e: EditView, s: Seq<char>)
    requires
        e.anchor != Some(e.cursor),
        printable(s).len() > 0 || !has_selection_of(e),
        e.cursor + s.len() <= usize::MAX,
    ensures
        paste_of(e, s) == type_all(e, printable(s)),
{
    lemma_printable_len(s);
    let p = printable(s);
    let e1 = if has_selection_of(e) {
        delete_selection_of(e)
    } else {
        e
    };
    assert(e1.anchor is None);
    assert(e1.cursor <= e.cursor);
    if p.len() == 0 {
        lemma_type_all_inserts(e1, p);
        if has_selection_of(e) {
            let q = clamp_pos(e1.cursor, e1.text.len());
            assert(e1.text.take(q) + p + e1.text.skip(q) =~= e1.text);
            assert(insert_of(e1, p) == e1);
        }
        assert(type_all(e, p) == e);
        assert(paste_of(e, s) == insert_of(e1, p));
    } else {
        let f1 = type_char_of(e, p[0]);
        assert(f1 == insert_of(e1, seq![p[0]]));
        assert(type_all(e, p) == type_all(f1, p.drop_first()));
        lemma_type_all_inserts(e1, p);
        assert(type_all(e1, p) == type_all(type_char_of(e1, p[0]), p.drop_first()));
        assert(type_char_of(e1, p[0]) == insert_of(e1, seq![p[0]]));
    }
}

/// What a typed character does to a plain text buffer without a cursor,
/// such as the Telegram bot-token field: the buffer after it, and whether
/// the field keeps focus (Enter and Escape give it up so the buffer is
/// committed).
pub open spec fn token_char_of(token: Seq<char>, c: char) -> (Seq<char>, bool) {
    if c == '\r' || c == '\n' || c == '\u{1b}' {
        (token, false)
    } else if c == '\u{8}' {
        (if token.len() > 0 {
            token.drop_last()
        } else {
            token
        }, true)
    } else if !spec_is_control(c) {
        (token.push(c), true)
    } else {
        (token, true)
    }
}

/// Apply a typed character to a plain text buffer; returns whether the
/// field keeps focus.
pub fn edit_token_char(token: &mut String, c: char) -> (keep_focus: bool)
    ensures
        (final(token)@, keep_focus) == token_char_of(old(token)@, c),
{
    if c == '\r' || c == '\n' || c == '\u{1b}' {
        false
    } else if c == '\u{8}' {
        let v = chars_of(token.as_str());
        if v.len() > 0 {
            *token = string_from_range(&v, 0, v.len() - 1);
            assert(v@.subrange(0, v@.len() - 1) =~= v@.drop_last());
        }
        true
    } else if !is_control(c) {
        push_char(token, c);
        true
    } else {
        true
    }
}

/// A search box: the field being edited and the query the results are
/// filtered by, which follows the field's text.
#[derive(Debug, Clone)]
pub struct SearchInput {
    pub editing: TextEditing,
    pub query: String,
}

/// A typed character edits the search box when it is a backspace or a
/// printable character; then the query becomes the new text and the
/// results scroll back to the top (the `bool`). Anything else leaves the
/// box as it was.
pub open spec fn search_char_of(e: EditView, query: Seq<char>, c: char) -> (EditView, Seq<char>, bool) {
    if c == '\u{8}' || !spec_is_control(c) {
        let e2 = edit_char_of(e, c);
        (e2, e2.text, true)
    } else {
        (e, query, false)
    }
}

impl SearchInput {
    /// Type `c` into the search box; returns whether the result list must
    /// scroll back to the top.
    pub fn type_char_into(&mut self, c: char) -> (reset_scroll: bool)
        requires
            old(self).editing.cursor < usize::MAX,
        ensures
            (final(self).editing@, final(self).query@, reset_scroll) == search_char_of(
                old(self).editing@,
                old(self).query@,
                c,
            ),
    {
        if c == '\u{8}' || !is_control(c) {
            self.editing.edit_char(c);
            self.query = self.editing.text_string();
            true
        } else {
            false
        }
    }
}

impl SearchInput {
    /// Apply a named key to the search box; the query becomes the field's
    /// text whatever the key, and the result list scrolls back to the top.
    /// Returns whether the field consumed the key.
    pub fn apply_key_into(&mut self, key: KeyPress) -> (consumed: bool)
        requires
            key matches KeyPress::Paste(s) ==> old(self).editing.cursor + s@.len() <= usize::MAX,
        ensures
            (final(self).editing@, consumed) == apply_key_of(old(self).editing@, key),
            final(self).query@ == final(self).editing@.text,
    {
        let consumed = self.editing.apply_key(key);
        self.query = self.editing.text_string();
        consumed
    }
}

/// Once the query shows the field's text, it keeps showing it whatever is
/// typed.
pub proof fn law_search_query_follows_text(e: EditView, query: Seq<char>, c: char)
    requires
        query == e.text,
    ensures
        search_char_of(e, query, c).1 == search_char_of(e, query, c).0.text,
{
}

} // verus!
