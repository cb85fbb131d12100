//! Watchlist column separators and drag-to-reorder in the right sidebar.

use vstd::prelude::*;

verus! {

/// Which optional watchlist columns are shown (the symbol column always is).
#[derive(Debug, Clone, Copy, PartialEq, Eq)]
pub struct ColumnFlags {
    pub show_exchange: bool,
    pub show_account_type: bool,
    pub show_last_price: bool,
    pub show_change_pct: bool,
    pub show_change_abs: bool,
    /// High and low are two columns.
    pub show_high_low: bool,
    pub show_volume: bool,
}

/// The number of column separators: one per shown optional column, two
/// for high/low.
pub open spec fn separator_count_of(c: ColumnFlags) -> nat {
    (if c.show_exchange { 1nat } else { 0nat }) + (if c.show_account_type { 1nat } else { 0nat })
        + (if c.show_last_price { 1nat } else { 0nat }) + (if c.show_change_pct { 1nat } else { 0nat })
        + (if c.show_change_abs { 1nat } else { 0nat }) + (if c.show_high_low { 2nat } else { 0nat })
        + (if c.show_volume { 1nat } else { 0nat })
}

impl ColumnFlags {
    /// Count the separators between the shown columns.
    pub fn separator_count(&self) -> (n: usize)
        ensures
            n == separator_count_of(*self),
    {
        let mut n: usize = 0;
        if self.show_exchange {
            n = n + 1;
        }
        if self.show_account_type {
            n = n + 1;
        }
        if self.show_last_price {
            n = n + 1;
        }
        if self.show_change_pct {
            n = n + 1;
        }
        if self.show_change_abs {
            n = n + 1;
        }
        if self.show_high_low {
            n = n + 2;
        }
        if self.show_volume {
            n = n + 1;
        }
        n
    }

    /// Custom separator offsets are used only when there is one per
    /// separator; otherwise the columns fall back to equal widths.
    pub fn uses_custom_offsets(&self, offsets_len: Option<usize>) -> (r: bool)
        ensures
            r == (offsets_len matches Some(k) && k == separator_count_of(*self)),
    {
        match offsets_len {
            Some(k) => k == self.separator_count(),
            None => false,
        }
    }
}

/// The move a finished drag-to-reorder makes: from the dragged row to the
/// drop row clamped to the last row, nothing when they coincide.
pub open spec fn reorder_move_of(drag: usize, drop: Option<usize>, len: usize) -> Option<(usize, usize)> {
    let d = match drop {
        Some(x) => x,
        None => drag,
    };
    let last = if len == 0 {
        0usize
    } else {
        (len - 1) as usize
    };
    let to = if d < last {
        d
    } else {
        last
    };
    if drag != to {
        Some((drag, to))
    } else {
        None
    }
}

/// Decide the reorder at the end of a watchlist row drag over a list of
/// `len` ungrouped symbols.
pub fn reorder_move(drag: usize, drop: Option<usize>, len: usize) -> (r: Option<(usize, usize)>)
    ensures
        r == reorder_move_of(drag, drop, len),
{
    let drop_idx = match drop {
        Some(x) => x,
        None => drag,
    };
    let clamped_drop = if drop_idx < len.saturating_sub(1) {
        drop_idx
    } else {
        len.saturating_sub(1)
    };
    if drag != clamped_drop {
        Some((drag, clamped_drop))
    } else {
        None
    }
}

/// The move a finished drag in the watchlist modal makes: as in the
/// sidebar, except that a drop on the dragged row itself does nothing even
/// when that row lies past the end of the list.
pub open spec fn modal_reorder_move_of(from: usize, drop: Option<usize>, len: usize) -> Option<(usize, usize)> {
    let to = match drop {
        Some(x) => x,
        None => from,
    };
    if from == to {
        None
    } else {
        reorder_move_of(from, drop, len)
    }
}

/// Decide the reorder at the end of a row drag in the watchlist modal.
pub fn modal_reorder_move(from: usize, drop: Option<usize>, len: usize) -> (r: Option<(usize, usize)>)
    ensures
        r == modal_reorder_move_of(from, drop, len),
{
    let to = match drop {
        Some(x) => x,
        None => from,
    };
    if from == to {
        None
    } else {
        reorder_move(from, drop, len)
    }
}

/// The drop row of a reorder always names an existing row of a non-empty list.
pub proof fn law_reorder_target_in_range(drag: usize, drop: Option<usize>, len: usize)
    requires
        len > 0,
    ensures
        reorder_move_of(drag, drop, len) matches Some((_, to)) ==> to < len,
        modal_reorder_move_of(drag, drop, len) matches Some((_, to)) ==> to < len,
{
}

} // verus!
