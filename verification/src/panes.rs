//! Ordering of a chart window's indicator sub-panes. Panes above the main
//! chart come first, those below it after; the move buttons of a pane step
//! it one place up or down, crossing the main chart at the boundary.

use vstd::prelude::*;

verus! {

/// A sub-pane as far as its order is concerned.
#[derive(Debug, Clone, Copy, PartialEq, Eq)]
pub struct SubPaneSlot {
    pub instance_id: u64,
    /// The pane sits above the main chart.
    pub above_main: bool,
}

/// How a move button changes the pane list.
#[derive(Debug, Clone, Copy, PartialEq, Eq)]
pub enum PaneMove {
    /// Exchange the panes at the two positions.
    Swap(usize, usize),
    /// The pane at the position crosses the main chart without changing place.
    SetAboveMain(usize, bool),
    /// Nothing changes.
    Stay,
}

/// Every pane above the main chart comes before every pane below it.
pub open spec fn partitioned(s: Seq<SubPaneSlot>) -> bool {
    forall|i: int, j: int| 0 <= i < j < s.len() && #[trigger] s[j].above_main ==> #[trigger] s[i].above_main
}

/// The panes before position `idx` are all above the main chart.
pub open spec fn all_above_before(s: Seq<SubPaneSlot>, idx: int) -> bool {
    forall|j: int| 0 <= j < idx ==> #[trigger] s[j].above_main
}

/// The panes after position `idx` are all below the main chart.
pub open spec fn all_below_after(s: Seq<SubPaneSlot>, idx: int) -> bool {
    forall|j: int| idx < j < s.len() ==> !#[trigger] s[j].above_main
}

/// The move-up button of pane `idx`: a pane above the main chart moves one
/// place up (the topmost stays); the first pane below the main chart goes
/// above it; any other pane below moves one place up.
pub open spec fn move_up_of(s: Seq<SubPaneSlot>, idx: usize) -> PaneMove {
    if idx >= s.len() {
        PaneMove::Stay
    } else if s[idx as int].above_main {
        if idx > 0 {
            PaneMove::Swap(idx, (idx - 1) as usize)
        } else {
            PaneMove::Stay
        }
    } else if all_above_before(s, idx as int) {
        PaneMove::SetAboveMain(idx, true)
    } else {
        PaneMove::Swap(idx, (idx - 1) as usize)
    }
}

/// The move-down button of pane `idx`: a pane below the main chart moves
/// one place down (the bottom one stays); the last pane above the main
/// chart goes below it; any other pane above moves one place down.
pub open spec fn move_down_of(s: Seq<SubPaneSlot>, idx: usize) -> PaneMove {
    if idx >= s.len() {
        PaneMove::Stay
    } else if !s[idx as int].above_main {
        if idx + 1 < s.len() {
            PaneMove::Swap(idx, (idx + 1) as usize)
        } else {
            PaneMove::Stay
        }
    } else if all_below_after(s, idx as int) {
        PaneMove::SetAboveMain(idx, false)
    } else {
        PaneMove::Swap(idx, (idx + 1) as usize)
    }
}

/// The pane list after move `m`.
pub open spec fn applied(s: Seq<SubPaneSlot>, m: PaneMove) -> Seq<SubPaneSlot> {
    match m {
        PaneMove::Swap(i, j) => s.update(i as int, s[j as int]).update(j as int, s[i as int]),
        PaneMove::SetAboveMain(i, b) => s.update(
            i as int,
            SubPaneSlot { instance_id: s[i as int].instance_id, above_main: b },
        ),
        PaneMove::Stay => s,
    }
}

/// Where the moved pane at `idx` ends up.
pub open spec fn moved_to(m: PaneMove, idx: usize) -> usize {
    match m {
        PaneMove::Swap(_, j) => j,
        _ => idx,
    }
}

/// Whether all panes before `idx` are above the main chart.
fn check_all_above_before(panes: &Vec<SubPaneSlot>, idx: usize) -> (r: bool)
    requires
        idx <= panes@.len(),
    ensures
        r == all_above_before(panes@, idx as int),
{
    let mut j: usize = 0;
    while j < idx
        invariant
            j <= idx <= panes@.len(),
            all_above_before(panes@, j as int),
        decreases idx - j,
    {
        if !panes[j].above_main {
            return false;
        }
        j = j + 1;
    }
    true
}

/// Whether all panes after `idx` are below the main chart.
fn check_all_below_after(panes: &Vec<SubPaneSlot>, idx: usize) -> (r: bool)
    requires
        idx < panes@.len(),
    ensures
        r == all_below_after(panes@, idx as int),
{
    let n = panes.len();
    let mut j: usize = idx + 1;
    while j < n
        invariant
            n == panes@.len(),
            idx < j <= panes@.len(),
            forall|k: int| idx < k < j ==> !#[trigger] panes@[k].above_main,
        decreases panes@.len() - j,
    {
        if panes[j].above_main {
            return false;
        }
        j = j + 1;
    }
    true
}

/// Carry out move `m`.
fn apply_move(panes: &mut Vec<SubPaneSlot>, m: PaneMove)
    requires
        match m {
            PaneMove::Swap(i, j) => i < old(panes)@.len() && j < old(panes)@.len(),
            PaneMove::SetAboveMain(i, _) => i < old(panes)@.len(),
            PaneMove::Stay => true,
        },
    ensures
        final(panes)@ == applied(old(panes)@, m),
{
    match m {
        PaneMove::Swap(i, j) => {
            let a = panes[i];
            let b = panes[j];
            panes.set(i, b);
            panes.set(j, a);
        },
        PaneMove::SetAboveMain(i, v) => {
            let id = panes[i].instance_id;
            panes.set(i, SubPaneSlot { instance_id: id, above_main: v });
        },
        PaneMove::Stay => {},
    }
}

/// Press the move-up button of the pane at `idx`; returns the move made, so
/// the same can be done to the panes themselves.
pub fn move_sub_pane_up(panes: &mut Vec<SubPaneSlot>, idx: usize) -> (m: PaneMove)
    ensures
        m == move_up_of(old(panes)@, idx),
        final(panes)@ == applied(old(panes)@, m),
{
    if idx >= panes.len() {
        return PaneMove::Stay;
    }
    let m = if panes[idx].above_main {
        if idx > 0 {
            PaneMove::Swap(idx, idx - 1)
        } else {
            PaneMove::Stay
        }
    } else if check_all_above_before(panes, idx) {
        PaneMove::SetAboveMain(idx, true)
    } else {
        PaneMove::Swap(idx, idx - 1)
    };
    apply_move(panes, m);
    m
}

/// Press the move-down button of the pane at `idx`; returns the move made.
pub fn move_sub_pane_down(panes: &mut Vec<SubPaneSlot>, idx: usize) -> (m: PaneMove)
    ensures
        m == move_down_of(old(panes)@, idx),
        final(panes)@ == applied(old(panes)@, m),
{
    if idx >= panes.len() {
        return PaneMove::Stay;
    }
    let m = if !panes[idx].above_main {
        if idx + 1 < panes.len() {
            PaneMove::Swap(idx, idx + 1)
        } else {
            PaneMove::Stay
        }
    } else if check_all_below_after(panes, idx) {
        PaneMove::SetAboveMain(idx, false)
    } else {
        PaneMove::Swap(idx, idx + 1)
    };
    apply_move(panes, m);
    m
}

/// Moving keeps the panes above the main chart ahead of those below it.
pub proof fn law_moves_keep_partition(s: Seq<SubPaneSlot>, idx: usize)
    requires
        partitioned(s),
        s.len() <= usize::MAX,
    ensures
        partitioned(applied(s, move_up_of(s, idx))),
        partitioned(applied(s, move_down_of(s, idx))),
        applied(s, move_up_of(s, idx)).len() == s.len(),
        applied(s, move_down_of(s, idx)).len() == s.len(),
{
    let u = applied(s, move_up_of(s, idx));
    let d = applied(s, move_down_of(s, idx));
    if idx < s.len() {
        let i = idx as int;
        if s[i].above_main {
            if i > 0 {
                // Two panes above the main chart trade places.
                assert(s[i - 1].above_main);
                assert forall|k: int| 0 <= k < u.len() implies #[trigger] u[k].above_main
                    == s[k].above_main by {}
            }
            if all_below_after(s, i) {
                assert forall|a: int, b: int| 0 <= a < b < d.len() && #[trigger] d[b].above_main implies #[trigger] d[a].above_main by {
                    if a == i {
                        assert(!s[b].above_main);
                    } else if b != i {
                        assert(d[b] == s[b]);
                        assert(s[a].above_main);
                    }
                }
            } else {
                let j = choose|j: int| i < j < s.len() && #[trigger] s[j].above_main;
                assert(s[i + 1].above_main) by {
                    if j > i + 1 {
                        assert(s[j].above_main);
                    }
                }
                assert forall|k: int| 0 <= k < d.len() implies #[trigger] d[k].above_main
                    == s[k].above_main by {}
            }
        } else {
            if i + 1 < s.len() {
                assert(!s[i + 1].above_main) by {
                    if s[i + 1].above_main {
                        assert(s[i].above_main);
                    }
                }
                assert forall|k: int| 0 <= k < d.len() implies #[trigger] d[k].above_main
                    == s[k].above_main by {}
            }
            if all_above_before(s, i) {
                assert forall|a: int, b: int| 0 <= a < b < u.len() && #[trigger] u[b].above_main implies #[trigger] u[a].above_main by {
                    if b == i {
                        assert(s[a].above_main);
                    } else if a != i {
                        assert(u[b] == s[b]);
                        assert(s[a].above_main);
                    }
                }
            } else {
                let j = choose|j: int| 0 <= j < i && !#[trigger] s[j].above_main;
                assert(!s[i - 1].above_main) by {
                    if s[i - 1].above_main && j < i - 1 {
                        assert(s[j].above_main);
                    }
                }
                assert forall|k: int| 0 <= k < u.len() implies #[trigger] u[k].above_main
                    == s[k].above_main by {}
            }
        }
    }
}

/// A move up that changed something is undone by a move down of the same
/// pane, and a move down that changed something by a move up.
pub proof fn law_up_down_roundtrip(s: Seq<SubPaneSlot>, idx: usize)
    requires
        partitioned(s),
        s.len() <= usize::MAX,
    ensures
        move_up_of(s, idx) != PaneMove::Stay ==> {
            let t = applied(s, move_up_of(s, idx));
            applied(t, move_down_of(t, moved_to(move_up_of(s, idx), idx))) == s
        },
        move_down_of(s, idx) != PaneMove::Stay ==> {
            let t = applied(s, move_down_of(s, idx));
            applied(t, move_up_of(t, moved_to(move_down_of(s, idx), idx))) == s
        },
{
    if idx < s.len() {
        let i = idx as int;
        let up = move_up_of(s, idx);
        if up != PaneMove::Stay {
            let t = applied(s, up);
            if s[i].above_main {
                assert(s[i - 1].above_main);
                assert(t[i].above_main);
                assert(!all_below_after(t, i - 1));
            } else if all_above_before(s, i) {
                assert(all_below_after(t, i)) by {
                    assert forall|k: int| i < k < t.len() implies !#[trigger] t[k].above_main by {
                        assert(t[k] == s[k]);
                        if s[k].above_main {
                            assert(s[i].above_main);
                        }
                    }
                }
            } else {
                let j = choose|j: int| 0 <= j < i && !#[trigger] s[j].above_main;
                assert(!s[i - 1].above_main) by {
                    if s[i - 1].above_main && j < i - 1 {
                        assert(s[j].above_main);
                    }
                }
                assert(!t[i - 1].above_main);
            }
            let t2 = applied(t, move_down_of(t, moved_to(up, idx)));
            assert(t2 =~= s);
        }
        let down = move_down_of(s, idx);
        if down != PaneMove::Stay {
            let t = applied(s, down);
            if !s[i].above_main {
                assert(!s[i + 1].above_main) by {
                    if s[i + 1].above_main {
                        assert(s[i].above_main);
                    }
                }
                assert(!t[i].above_main);
                assert(!all_above_before(t, i + 1));
            } else if all_below_after(s, i) {
                assert(all_above_before(t, i)) by {
                    assert forall|k: int| 0 <= k < i implies #[trigger] t[k].above_main by {
                        assert(t[k] == s[k]);
                        assert(s[i].above_main);
                        assert(s[k].above_main);
                    }
                }
            } else {
                let j = choose|j: int| i < j < s.len() && #[trigger] s[j].above_main;
                assert(s[i + 1].above_main);
                assert(t[i + 1].above_main);
            }
            let t2 = applied(t, move_up_of(t, moved_to(down, idx)));
            assert(t2 =~= s);
        }
    }
}

/// A move button touches only its pane: the pane trades places with the
/// neighbour on that side, or crosses the main chart in place (the one
/// flag change of a move), or nothing changes; every other pane keeps its
/// place.
pub proof fn law_move_touches_one_pane(s: Seq<SubPaneSlot>, idx: usize)
    requires
        s.len() <= usize::MAX,
    ensures
        match move_up_of(s, idx) {
            PaneMove::Swap(a, b) => a == idx && b + 1 == idx,
            PaneMove::SetAboveMain(a, v) => a == idx && v && !s[idx as int].above_main,
            PaneMove::Stay => true,
        },
        match move_down_of(s, idx) {
            PaneMove::Swap(a, b) => a == idx && b == idx + 1,
            PaneMove::SetAboveMain(a, v) => a == idx && !v && s[idx as int].above_main,
            PaneMove::Stay => true,
        },
        forall|k: int|
            0 <= k < s.len() && k != idx && k + 1 != idx ==> #[trigger] applied(s, move_up_of(s, idx))[k]
                == s[k],
        forall|k: int|
            0 <= k < s.len() && k != idx && k != idx + 1 ==> #[trigger] applied(
                s,
                move_down_of(s, idx),
            )[k] == s[k],
{
}

} // verus!
