//! Host-side text selections in the agent panel: a cell range over the
//! terminal grid of a PTY leaf and a line/character range over the
//! word-wrapped lines of a chat leaf, and the text each one copies.

use vstd::prelude::*;
use crate::chars::is_whitespace;
use crate::strings::{chars_of, push_char, push_range, trim_end_of};

verus! {

// ---------------------------------------------------------------------------
// Positions
// ---------------------------------------------------------------------------

/// `(row, col)` strictly before `(row2, col2)`.
pub open spec fn cell_lt(a: (u16, u16), b: (u16, u16)) -> bool {
    a.0 < b.0 || (a.0 == b.0 && a.1 < b.1)
}

/// A selection over terminal cells, from the anchor (where the drag began)
/// to the head (where the pointer is now).
#[derive(Debug, Clone, Copy, PartialEq, Eq)]
pub struct PtySelection {
    pub anchor: (u16, u16),
    pub head: (u16, u16),
}

impl PtySelection {
    /// The lexicographically ordered `(start, end)` cells.
    pub open spec fn spec_ordered(self) -> ((u16, u16), (u16, u16)) {
        if cell_lt(self.head, self.anchor) {
            (self.head, self.anchor)
        } else {
            (self.anchor, self.head)
        }
    }

    /// An empty selection at `(row, col)`.
    pub fn new(row: u16, col: u16) -> (s: PtySelection)
        ensures
            s.anchor == (row, col),
            s.head == (row, col),
    {
        PtySelection { anchor: (row, col), head: (row, col) }
    }

    /// Move the head of the selection to `(row, col)`.
    pub fn extend_to(&mut self, row: u16, col: u16)
        ensures
            final(self).anchor == old(self).anchor,
            final(self).head == (row, col),
    {
        self.head = (row, col);
    }

    /// The selection covers no cell.
    pub fn is_empty(&self) -> (r: bool)
        ensures
            r == (self.anchor == self.head),
    {
        self.anchor.0 == self.head.0 && self.anchor.1 == self.head.1
    }

    /// The start and end cells in reading order.
    pub fn ordered(&self) -> (r: ((u16, u16), (u16, u16)))
        ensures
            r == self.spec_ordered(),
    {
        let a = self.anchor;
        let h = self.head;
        if h.0 < a.0 || (h.0 == a.0 && h.1 < a.1) {
            (h, a)
        } else {
            (a, h)
        }
    }
}

/// `(msg, line)` strictly before `(msg2, line2)`.
pub open spec fn line_lt(a: (u32, u32), b: (u32, u32)) -> bool {
    a.0 < b.0 || (a.0 == b.0 && a.1 < b.1)
}

/// `(msg, line, char)` strictly before `(msg2, line2, char2)`.
pub open spec fn char_pos_lt(a: (u32, u32, u16), b: (u32, u32, u16)) -> bool {
    a.0 < b.0 || (a.0 == b.0 && (a.1 < b.1 || (a.1 == b.1 && a.2 < b.2)))
}

/// A selection over the wrapped lines of a chat leaf, positions given as
/// `(message, line, character)`.
#[derive(Debug, Clone, Copy, PartialEq, Eq)]
pub struct ChatSelection {
    pub anchor: (u32, u32, u16),
    pub head: (u32, u32, u16),
}

impl ChatSelection {
    /// The ordered `(start, end)` positions.
    pub open spec fn spec_ordered(self) -> ((u32, u32, u16), (u32, u32, u16)) {
        if char_pos_lt(self.head, self.anchor) {
            (self.head, self.anchor)
        } else {
            (self.anchor, self.head)
        }
    }

    /// An empty selection at a position.
    pub fn new_at(msg: u32, line: u32, ch: u16) -> (s: ChatSelection)
        ensures
            s.anchor == (msg, line, ch),
            s.head == (msg, line, ch),
    {
        ChatSelection { anchor: (msg, line, ch), head: (msg, line, ch) }
    }

    /// Move the head of the selection.
    pub fn extend_to(&mut self, msg: u32, line: u32, ch: u16)
        ensures
            final(self).anchor == old(self).anchor,
            final(self).head == (msg, line, ch),
    {
        self.head = (msg, line, ch);
    }

    /// The selection covers no character.
    pub fn is_empty(&self) -> (r: bool)
        ensures
            r == (self.anchor == self.head),
    {
        self.anchor.0 == self.head.0 && self.anchor.1 == self.head.1 && self.anchor.2
            == self.head.2
    }

    /// The start and end positions in reading order.
    pub fn ordered(&self) -> (r: ((u32, u32, u16), (u32, u32, u16)))
        ensures
            r == self.spec_ordered(),
    {
        let a = self.anchor;
        let h = self.head;
        if h.0 < a.0 || (h.0 == a.0 && (h.1 < a.1 || (h.1 == a.1 && h.2 < a.2))) {
            (h, a)
        } else {
            (a, h)
        }
    }
}

// ---------------------------------------------------------------------------
// Terminal grid text
// ---------------------------------------------------------------------------

/// The visible terminal grid of a PTY leaf: each cell holds the text drawn
/// in it (usually one character, empty for the trailing half of wide glyphs).
#[derive(Debug, Clone)]
pub struct PtyGrid {
    pub cols: u16,
    pub cells: Vec<Vec<String>>,
}

/// The text of cells `c0..c1` of row `row`, concatenated.
pub open spec fn cells_text(g: PtyGrid, row: int, c0: int, c1: int) -> Seq<char>
    decreases c1 - c0,
{
    if c1 <= c0 {
        Seq::empty()
    } else {
        cells_text(g, row, c0, c1 - 1) + g.cells@[row]@[c1 - 1]@
    }
}

/// The column range `(c0, c1)` copied from row `row` of selection `lo..=hi`,
/// before clamping to the row length.
pub open spec fn row_span(row: int, lo: (u16, u16), hi: (u16, u16), cols: u16) -> (int, int) {
    if lo.0 == hi.0 {
        (lo.1 as int, hi.1 as int)
    } else if row == lo.0 {
        (lo.1 as int, cols as int)
    } else if row == hi.0 {
        (0, hi.1 as int)
    } else {
        (0, cols as int)
    }
}

/// What row `row` contributes: its selected cells with trailing whitespace
/// trimmed, then a line break unless it is the last selected row. A row
/// whose clamped span is empty contributes nothing.
pub open spec fn row_text(g: PtyGrid, row: int, lo: (u16, u16), hi: (u16, u16)) -> Seq<char> {
    let (c0, c1r) = row_span(row, lo, hi, g.cols);
    let len = g.cells@[row]@.len() as int;
    let c1 = if c1r < len {
        c1r
    } else {
        len
    };
    if c1 <= c0 {
        Seq::empty()
    } else {
        trim_end_of(cells_text(g, row, c0, c1)) + if row < hi.0 {
            seq!['\n']
        } else {
            Seq::empty()
        }
    }
}

/// The text of rows `lo.0..k` of the selection.
pub open spec fn rows_text(g: PtyGrid, lo: (u16, u16), hi: (u16, u16), k: int) -> Seq<char>
    decreases k - lo.0,
{
    if k <= lo.0 {
        Seq::empty()
    } else {
        rows_text(g, lo, hi, k - 1) + row_text(g, k - 1, lo, hi)
    }
}

/// The last row copied: the selection ends at `hi.0`, the grid at its last row.
pub open spec fn rows_end(g: PtyGrid, hi: (u16, u16)) -> int {
    if (hi.0 as int) + 1 < g.cells@.len() {
        hi.0 as int + 1
    } else {
        g.cells@.len() as int
    }
}

/// The text a selection copies from a grid.
pub open spec fn grid_selection_text(g: PtyGrid, sel: PtySelection) -> Seq<char> {
    let (lo, hi) = sel.spec_ordered();
    rows_text(g, lo, hi, rows_end(g, hi))
}

/// Dragging from one cell to another or back selects the same text.
pub proof fn law_pty_selection_direction_irrelevant(g: PtyGrid, a: (u16, u16), b: (u16, u16))
    ensures
        grid_selection_text(g, PtySelection { anchor: a, head: b }) == grid_selection_text(
            g,
            PtySelection { anchor: b, head: a },
        ),
{
    assert(PtySelection { anchor: a, head: b }.spec_ordered() == PtySelection {
        anchor: b,
        head: a,
    }.spec_ordered());
}

/// Trailing whitespace trimmed from `v`: the length of the kept prefix.
fn trimmed_len(v: &Vec<char>) -> (n: usize)
    ensures
        n <= v@.len(),
        v@.take(n as int) == trim_end_of(v@),
{
    let mut n = v.len();
    assert(v@.take(n as int) =~= v@);
    while n > 0 && is_whitespace(v[n - 1])
        invariant
            n <= v@.len(),
            trim_end_of(v@.take(n as int)) == trim_end_of(v@),
        decreases n,
    {
        assert(v@.take(n as int).drop_last() =~= v@.take(n as int - 1));
        n = n - 1;
    }
    n
}

/// Extract the text selected in a terminal grid: the selected cells of each
/// row, trailing whitespace trimmed per row, rows joined by line breaks.
pub fn grid_text(g: &PtyGrid, sel: &PtySelection) -> (out: String)
    ensures
        out@ == grid_selection_text(*g, *sel),
{
    let (lo, hi) = sel.ordered();
    let lo_row = lo.0 as usize;
    let hi_row = hi.0 as usize;
    let lo_col = lo.1 as usize;
    let hi_col = hi.1 as usize;
    let total_cols = g.cols as usize;
    let mut out = String::new();
    let mut row = lo_row;
    let ghost end = rows_end(*g, hi);
    while row <= hi_row
        invariant
            (lo, hi) == sel.spec_ordered(),
            lo_row == lo.0,
            hi_row == hi.0,
            lo_col == lo.1,
            hi_col == hi.1,
            total_cols == g.cols,
            lo_row <= row,
            row <= hi_row + 1,
            row <= end || row == lo_row,
            end == rows_end(*g, hi),
            out@ == rows_text(*g, lo, hi, row as int),
        ensures
            lo_row <= row <= hi_row + 1,
            row <= end || row == lo_row,
            out@ == rows_text(*g, lo, hi, row as int),
            row > hi_row || row >= g.cells@.len(),
        decreases hi_row + 1 - row,
    {
        if row >= g.cells.len() {
            break;
        }
        let row_cells = &g.cells[row];
        let (c0, c1) = if lo_row == hi_row {
            (lo_col, hi_col)
        } else if row == lo_row {
            (lo_col, total_cols)
        } else if row == hi_row {
            (0, hi_col)
        } else {
            (0, total_cols)
        };
        let c1 = if c1 < row_cells.len() {
            c1
        } else {
            row_cells.len()
        };
        if c1 <= c0 {
            row = row + 1;
            continue;
        }
        let mut line: Vec<char> = Vec::new();
        let mut c = c0;
        while c < c1
            invariant
                c0 <= c <= c1 <= row_cells@.len(),
                row < g.cells@.len(),
                row_cells == g.cells@[row as int],
                line@ == cells_text(*g, row as int, c0 as int, c as int),
            decreases c1 - c,
        {
            let cell = chars_of(row_cells[c].as_str());
            let ghost before = line@;
            let mut k: usize = 0;
            while k < cell.len()
                invariant
                    k <= cell@.len(),
                    line@ == before + cell@.take(k as int),
                decreases cell@.len() - k,
            {
                line.push(cell[k]);
                assert(cell@.take(k as int + 1) =~= cell@.take(k as int).push(cell@[k as int]));
                k = k + 1;
            }
            assert(cell@.take(cell@.len() as int) =~= cell@);
            c = c + 1;
        }
        let n = trimmed_len(&line);
        push_range(&mut out, &line, 0, n);
        assert(line@.subrange(0, n as int) =~= line@.take(n as int));
        if row < hi_row {
            push_char(&mut out, '\n');
        }
        proof {
            assert(out@ =~= rows_text(*g, lo, hi, row as int + 1));
        }
        row = row + 1;
    }
    proof {
        if row as int > end {
            assert(end <= lo.0);
            assert(rows_text(*g, lo, hi, end) == Seq::<char>::empty());
            assert(rows_text(*g, lo, hi, row as int) == Seq::<char>::empty());
        }
    }
    out
}

// ---------------------------------------------------------------------------
// Chat line text
// ---------------------------------------------------------------------------

/// One word-wrapped chat line as laid out by the last render pass.
#[derive(Debug, Clone)]
pub struct ChatLine {
    pub msg: u32,
    pub line: u32,
    pub leaf: u64,
    pub text: String,
}

/// `s[a..b]` with both ends clamped to the length of `s`.
pub open spec fn clamped_sub(s: Seq<char>, a: int, b: int) -> Seq<char> {
    let n = s.len() as int;
    let a1 = if a < n {
        a
    } else {
        n
    };
    let b1 = if b < n {
        b
    } else {
        n
    };
    if b1 <= a1 {
        Seq::empty()
    } else {
        s.subrange(a1, b1)
    }
}

/// The part of a selected line that is copied: from the start character on
/// the first line, up to the end character on the last line, whole otherwise.
pub open spec fn chat_piece(l: ChatLine, lo: (u32, u32, u16), hi: (u32, u32, u16)) -> Seq<char> {
    let pos = (l.msg, l.line);
    let first = pos == (lo.0, lo.1);
    let last = pos == (hi.0, hi.1);
    let t = l.text@;
    if first && last {
        clamped_sub(
            t,
            lo.2 as int,
            lo.2 as int + if hi.2 >= lo.2 {
                hi.2 - lo.2
            } else {
                0
            },
        )
    } else if first {
        clamped_sub(t, lo.2 as int, t.len() as int)
    } else if last {
        clamped_sub(t, 0, hi.2 as int)
    } else {
        t
    }
}

/// Whether a laid-out line of leaf `leaf` lies within `lo..=hi`.
pub open spec fn chat_line_selected(
    l: ChatLine,
    leaf: u64,
    lo: (u32, u32, u16),
    hi: (u32, u32, u16),
) -> bool {
    l.leaf == leaf && !line_lt((l.msg, l.line), (lo.0, lo.1)) && !line_lt(
        (hi.0, hi.1),
        (l.msg, l.line),
    )
}

/// The text copied from the first `k` laid-out lines: the selected lines'
/// pieces, separated by line breaks.
pub open spec fn chat_text_upto(
    lines: Seq<ChatLine>,
    leaf: u64,
    lo: (u32, u32, u16),
    hi: (u32, u32, u16),
    k: int,
) -> Seq<char>
    decreases k,
{
    if k <= 0 {
        Seq::empty()
    } else {
        let acc = chat_text_upto(lines, leaf, lo, hi, k - 1);
        let l = lines[k - 1];
        if !chat_line_selected(l, leaf, lo, hi) {
            acc
        } else {
            (if acc.len() > 0 {
                acc.push('\n')
            } else {
                acc
            }) + chat_piece(l, lo, hi)
        }
    }
}

/// The characters `t[a..b]` clamped, appended to `out`.
fn push_clamped(out: &mut String, t: &Vec<char>, a: usize, b: usize)
    ensures
        final(out)@ == old(out)@ + clamped_sub(t@, a as int, b as int),
{
    let n = t.len();
    let a1 = if a < n {
        a
    } else {
        n
    };
    let b1 = if b < n {
        b
    } else {
        n
    };
    if b1 > a1 {
        push_range(out, t, a1, b1);
    } else {
        assert(old(out)@ + Seq::<char>::empty() =~= old(out)@);
    }
}

/// Extract the selected chat text of leaf `leaf` from the laid-out lines.
pub fn chat_text(lines: &Vec<ChatLine>, leaf: u64, sel: &ChatSelection) -> (text: String)
    ensures
        text@ == chat_text_upto(
            lines@,
            leaf,
            sel.spec_ordered().0,
            sel.spec_ordered().1,
            lines@.len() as int,
        ),
{
    let (lo, hi) = sel.ordered();
    let mut text = String::new();
    let mut i: usize = 0;
    while i < lines.len()
        invariant
            (lo, hi) == sel.spec_ordered(),
            i <= lines@.len(),
            text@ == chat_text_upto(lines@, leaf, lo, hi, i as int),
        decreases lines@.len() - i,
    {
        let l = &lines[i];
        let pos_lt_lo = l.msg < lo.0 || (l.msg == lo.0 && l.line < lo.1);
        let hi_lt_pos = hi.0 < l.msg || (hi.0 == l.msg && hi.1 < l.line);
        if l.leaf != leaf || pos_lt_lo || hi_lt_pos {
            i = i + 1;
            continue;
        }
        let ghost acc = text@;
        if text.as_str().unicode_len() != 0 {
            push_char(&mut text, '\n');
        }
        let t = chars_of(l.text.as_str());
        let is_first = l.msg == lo.0 && l.line == lo.1;
        let is_last = l.msg == hi.0 && l.line == hi.1;
        let lo_c = lo.2 as usize;
        let hi_c = hi.2 as usize;
        if is_first && is_last {
            let span = if hi_c >= lo_c {
                hi_c - lo_c
            } else {
                0
            };
            push_clamped(&mut text, &t, lo_c, lo_c + span);
        } else if is_first {
            push_clamped(&mut text, &t, lo_c, t.len());
        } else if is_last {
            push_clamped(&mut text, &t, 0, hi_c);
        } else {
            push_range(&mut text, &t, 0, t.len());
            assert(t@.subrange(0, t@.len() as int) =~= t@);
        }
        proof {
            assert(lines@[i as int] == *l);
        }
        i = i + 1;
    }
    text
}

/// Dragging from one chat position to another or back copies the same text.
pub proof fn law_chat_selection_direction_irrelevant(
    lines: Seq<ChatLine>,
    leaf: u64,
    a: (u32, u32, u16),
    b: (u32, u32, u16),
)
    ensures
        ({
            let s1 = ChatSelection { anchor: a, head: b }.spec_ordered();
            let s2 = ChatSelection { anchor: b, head: a }.spec_ordered();
            chat_text_upto(lines, leaf, s1.0, s1.1, lines.len() as int) == chat_text_upto(
                lines,
                leaf,
                s2.0,
                s2.1,
                lines.len() as int,
            )
        }),
{
    assert(ChatSelection { anchor: a, head: b }.spec_ordered() == ChatSelection {
        anchor: b,
        head: a,
    }.spec_ordered());
}

} // verus!
