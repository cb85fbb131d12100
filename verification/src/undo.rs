//! Undo/redo: which history a command is recorded in, what follows its
//! application, and how commands edit a sync group's shared primitive list.

use vstd::prelude::*;

verus! {

/// The kinds of undoable commands.
#[derive(Debug, Clone, Copy, PartialEq, Eq)]
pub enum CommandKind {
    CreatePrimitive,
    DeletePrimitive,
    DeleteAllPrimitives,
    RestoreAllPrimitives,
    MovePrimitive,
    SetPrimitiveVisibility,
    SetPrimitiveLock,
    ModifyPrimitiveData,
    ModifyPrimitiveFull,
    ReorderPrimitive,
    AddIndicator,
    RemoveIndicator,
    ViewportChange,
    ChangeChartType,
    ChangeSymbol,
    ChangeTimeframe,
    AddCompareSeries,
    RemoveCompareSeries,
    SetCompareSeriesVisibility,
    SetCompareSeriesColor,
    ClearAllCompareSeries,
    RestoreAllCompareSeries,
}

/// Commands on what a sync group shares (its primitives and indicators).
pub open spec fn spec_is_shared(k: CommandKind) -> bool {
    match k {
        CommandKind::CreatePrimitive
        | CommandKind::DeletePrimitive
        | CommandKind::DeleteAllPrimitives
        | CommandKind::RestoreAllPrimitives
        | CommandKind::MovePrimitive
        | CommandKind::SetPrimitiveVisibility
        | CommandKind::SetPrimitiveLock
        | CommandKind::ModifyPrimitiveData
        | CommandKind::ModifyPrimitiveFull
        | CommandKind::ReorderPrimitive
        | CommandKind::AddIndicator
        | CommandKind::RemoveIndicator => true,
        _ => false,
    }
}

/// Whether a command acts on state shared by a sync group.
pub fn is_shared_command(k: CommandKind) -> (r: bool)
    ensures
        r == spec_is_shared(k),
{
    match k {
        CommandKind::CreatePrimitive
        | CommandKind::DeletePrimitive
        | CommandKind::DeleteAllPrimitives
        | CommandKind::RestoreAllPrimitives
        | CommandKind::MovePrimitive
        | CommandKind::SetPrimitiveVisibility
        | CommandKind::SetPrimitiveLock
        | CommandKind::ModifyPrimitiveData
        | CommandKind::ModifyPrimitiveFull
        | CommandKind::ReorderPrimitive
        | CommandKind::AddIndicator
        | CommandKind::RemoveIndicator => true,
        _ => false,
    }
}

/// The history a command is pushed to.
#[derive(Debug, Clone, Copy, PartialEq, Eq)]
pub enum HistoryTarget {
    /// The sync group's history.
    Group(u64),
    /// The active window's own history.
    Window,
}

/// Shared commands go to the active window's sync group when it has one
/// that still exists; every other command goes to the window itself.
pub open spec fn push_target_of(k: CommandKind, active_group: Option<u64>, group_exists: bool) -> HistoryTarget {
    match active_group {
        Some(g) => if spec_is_shared(k) && group_exists {
            HistoryTarget::Group(g)
        } else {
            HistoryTarget::Window
        },
        None => HistoryTarget::Window,
    }
}

/// Choose the history a newly executed command is recorded in.
pub fn push_target(k: CommandKind, active_group: Option<u64>, group_exists: bool) -> (r: HistoryTarget)
    ensures
        r == push_target_of(k, active_group, group_exists),
{
    let shared = is_shared_command(k);
    let group_id = if shared {
        active_group
    } else {
        None
    };
    match group_id {
        Some(g) => {
            if group_exists {
                HistoryTarget::Group(g)
            } else {
                HistoryTarget::Window
            }
        },
        None => HistoryTarget::Window,
    }
}

/// Window-local commands (viewport, symbol, timeframe, chart type, compare
/// series) are always recorded in the window's own history, and shared
/// ones never are while the window's group exists.
pub proof fn law_history_target_by_kind(k: CommandKind, active_group: Option<u64>, group_exists: bool)
    ensures
        !spec_is_shared(k) ==> push_target_of(k, active_group, group_exists) == HistoryTarget::Window,
        spec_is_shared(k) && group_exists && active_group is Some ==> push_target_of(
            k,
            active_group,
            group_exists,
        ) == HistoryTarget::Group(active_group.unwrap()),
{
}

/// Where an undo or redo step takes its command from.
#[derive(Debug, Clone, Copy, PartialEq, Eq)]
pub enum HistorySource {
    Group(u64),
    Window,
    /// Neither history had anything to offer.
    Nothing,
}

/// The group's history is consulted first, when the active window is in a
/// group; the window's own history is the fallback.
pub open spec fn step_source_of(active_group: Option<u64>, group_has: bool, window_has: bool) -> HistorySource {
    match active_group {
        Some(g) if group_has => HistorySource::Group(g),
        _ => if window_has {
            HistorySource::Window
        } else {
            HistorySource::Nothing
        },
    }
}

/// Decide which history an undo or redo step uses, given whether the
/// group's and the window's histories have an entry in that direction.
pub fn step_source(active_group: Option<u64>, group_has: bool, window_has: bool) -> (r: HistorySource)
    ensures
        r == step_source_of(active_group, group_has, window_has),
{
    if let Some(g) = active_group {
        if group_has {
            return HistorySource::Group(g);
        }
    }
    if window_has {
        HistorySource::Window
    } else {
        HistorySource::Nothing
    }
}

/// What must follow the application of an undone or redone command, besides
/// marking the sidebar dirty.
#[derive(Debug, Clone, Copy, PartialEq, Eq)]
pub enum FollowUp {
    /// Recompute indicators, propagate the symbol to the sync group, autosave.
    RecalcAndPropagateSymbol,
    /// Recompute indicators, propagate the timeframe to the sync group, autosave.
    RecalcAndPropagateTimeframe,
    /// Save the preset snapshot.
    Autosave,
    Nothing,
}

/// The follow-up of each command kind.
pub open spec fn follow_up_of(k: CommandKind) -> FollowUp {
    match k {
        CommandKind::ChangeSymbol => FollowUp::RecalcAndPropagateSymbol,
        CommandKind::ChangeTimeframe => FollowUp::RecalcAndPropagateTimeframe,
        CommandKind::AddIndicator
        | CommandKind::RemoveIndicator
        | CommandKind::CreatePrimitive
        | CommandKind::DeletePrimitive
        | CommandKind::DeleteAllPrimitives
        | CommandKind::RestoreAllPrimitives
        | CommandKind::MovePrimitive
        | CommandKind::ModifyPrimitiveData
        | CommandKind::ModifyPrimitiveFull => FollowUp::Autosave,
        _ => FollowUp::Nothing,
    }
}

/// Decide the follow-up of an applied command.
pub fn follow_up(k: CommandKind) -> (r: FollowUp)
    ensures
        r == follow_up_of(k),
{
    match k {
        CommandKind::ChangeSymbol => FollowUp::RecalcAndPropagateSymbol,
        CommandKind::ChangeTimeframe => FollowUp::RecalcAndPropagateTimeframe,
        CommandKind::AddIndicator
        | CommandKind::RemoveIndicator
        | CommandKind::CreatePrimitive
        | CommandKind::DeletePrimitive
        | CommandKind::DeleteAllPrimitives
        | CommandKind::RestoreAllPrimitives
        | CommandKind::MovePrimitive
        | CommandKind::ModifyPrimitiveData
        | CommandKind::ModifyPrimitiveFull => FollowUp::Autosave,
        _ => FollowUp::Nothing,
    }
}

/// An undo right after a command is recorded takes it from the history it
/// was recorded in: a command pushed to the group's history is found there
/// first, and one pushed to the window's history is found there when the
/// group has nothing to undo.
pub proof fn law_undo_finds_last_recorded(k: CommandKind, group: Option<u64>, group_exists: bool, window_has: bool)
    ensures
        push_target_of(k, group, group_exists) matches HistoryTarget::Group(g) ==> step_source_of(
            group,
            true,
            window_has,
        ) == HistorySource::Group(g),
        push_target_of(k, group, group_exists) == HistoryTarget::Window ==> step_source_of(
            group,
            false,
            true,
        ) == HistorySource::Window,
{
}

/// The undo record of a lock or visibility toggle of primitive `index`:
/// the flag after the toggle and the flag before it.
#[derive(Debug, Clone, Copy, PartialEq, Eq)]
pub struct FlagToggle {
    pub index: usize,
    pub value: bool,
    pub previous: bool,
}

/// The record of the context menu's "toggle lock" on primitive `index`,
/// whose lock flag is `locked` (read before the toggle; a primitive that
/// cannot be read counts as unlocked). It is recorded as a
/// `SetPrimitiveLock` command.
pub fn lock_toggle_record(index: usize, locked: Option<bool>) -> (r: FlagToggle)
    ensures
        r.index == index,
        r.previous == match locked {
            Some(b) => b,
            None => false,
        },
        r.value == !r.previous,
{
    let previous = match locked {
        Some(b) => b,
        None => false,
    };
    FlagToggle { index, value: !previous, previous }
}

/// The record of the context menu's "toggle visibility" on primitive
/// `index`; a primitive that cannot be read counts as visible. It is
/// recorded as a `SetPrimitiveVisibility` command.
pub fn visibility_toggle_record(index: usize, visible: Option<bool>) -> (r: FlagToggle)
    ensures
        r.index == index,
        r.previous == match visible {
            Some(b) => b,
            None => true,
        },
        r.value == !r.previous,
{
    let previous = match visible {
        Some(b) => b,
        None => true,
    };
    FlagToggle { index, value: !previous, previous }
}

/// Where a toggle's command is recorded: like every primitive command, in
/// the history of the window's existing group, else in the window's own.
pub proof fn law_toggle_recorded_as_primitive_command(group: Option<u64>, group_exists: bool)
    ensures
        push_target_of(CommandKind::SetPrimitiveLock, group, group_exists) == push_target_of(
            CommandKind::CreatePrimitive,
            group,
            group_exists,
        ),
        push_target_of(CommandKind::SetPrimitiveVisibility, group, group_exists) == push_target_of(
            CommandKind::CreatePrimitive,
            group,
            group_exists,
        ),
{
}

/// Where an undone or redone command is applied.
#[derive(Debug, Clone, Copy, PartialEq, Eq)]
pub enum ApplyTarget {
    /// The primitive list of this sync group.
    GroupPrimitives(u64),
    /// The active window's drawing manager.
    WindowDrawings,
    /// The active window's drawing manager, after which the window's
    /// drawings are copied back to its group.
    WindowDrawingsSyncBack,
    /// The active window itself: viewport, chart type, symbol, timeframe,
    /// compare series.
    Window,
    /// The indicator manager.
    Indicators,
    /// The command is not applied.
    Unhandled,
}

/// Whether a command edits drawing primitives.
pub open spec fn is_primitive_command(k: CommandKind) -> bool {
    match k {
        CommandKind::CreatePrimitive
        | CommandKind::DeletePrimitive
        | CommandKind::DeleteAllPrimitives
        | CommandKind::RestoreAllPrimitives
        | CommandKind::MovePrimitive
        | CommandKind::SetPrimitiveVisibility
        | CommandKind::SetPrimitiveLock
        | CommandKind::ModifyPrimitiveData
        | CommandKind::ReorderPrimitive => true,
        _ => false,
    }
}

/// Primitive commands go to the group's list when the active window
/// belongs to group `group`, and to the window's drawings otherwise (a
/// data edit there is copied back to the group); indicator commands go to
/// the indicator manager; the rest to the window.
pub open spec fn apply_target_of(k: CommandKind, group: Option<u64>) -> ApplyTarget {
    if is_primitive_command(k) {
        match group {
            Some(g) => ApplyTarget::GroupPrimitives(g),
            None => if k == CommandKind::ModifyPrimitiveData {
                ApplyTarget::WindowDrawingsSyncBack
            } else {
                ApplyTarget::WindowDrawings
            },
        }
    } else {
        match k {
            CommandKind::AddIndicator | CommandKind::RemoveIndicator => ApplyTarget::Indicators,
            CommandKind::ModifyPrimitiveFull => ApplyTarget::Unhandled,
            _ => ApplyTarget::Window,
        }
    }
}

/// Decide where an undone or redone command of kind `k` is applied, the
/// active window belonging to sync group `group` if any.
pub fn apply_target(k: CommandKind, group: Option<u64>) -> (r: ApplyTarget)
    ensures
        r == apply_target_of(k, group),
{
    match k {
        CommandKind::CreatePrimitive
        | CommandKind::DeletePrimitive
        | CommandKind::DeleteAllPrimitives
        | CommandKind::RestoreAllPrimitives
        | CommandKind::MovePrimitive
        | CommandKind::SetPrimitiveVisibility
        | CommandKind::SetPrimitiveLock
        | CommandKind::ModifyPrimitiveData
        | CommandKind::ReorderPrimitive => match group {
            Some(g) => ApplyTarget::GroupPrimitives(g),
            None => {
                if let CommandKind::ModifyPrimitiveData = k {
                    ApplyTarget::WindowDrawingsSyncBack
                } else {
                    ApplyTarget::WindowDrawings
                }
            },
        },
        CommandKind::AddIndicator | CommandKind::RemoveIndicator => ApplyTarget::Indicators,
        CommandKind::ModifyPrimitiveFull => ApplyTarget::Unhandled,
        _ => ApplyTarget::Window,
    }
}

/// A command is undone where it was recorded: a primitive command recorded
/// in the history of the window's existing group is applied to that
/// group's primitive list, and a window-local command, recorded in the
/// window's history, is applied to the window.
pub proof fn law_applied_where_recorded(k: CommandKind, group: Option<u64>, group_exists: bool)
    ensures
        is_primitive_command(k) && group_exists && group is Some ==> push_target_of(
            k,
            group,
            group_exists,
        ) == HistoryTarget::Group(group.unwrap()) && apply_target_of(k, group)
            == ApplyTarget::GroupPrimitives(group.unwrap()),
        !spec_is_shared(k) ==> push_target_of(k, group, group_exists) == HistoryTarget::Window
            && apply_target_of(k, group) == ApplyTarget::Window,
        is_primitive_command(k) && group is None ==> push_target_of(k, group, group_exists)
            == HistoryTarget::Window && (apply_target_of(k, group) == ApplyTarget::WindowDrawings
            || apply_target_of(k, group) == ApplyTarget::WindowDrawingsSyncBack),
{
}

// ---------------------------------------------------------------------------
// The shared primitive list of a sync group
// ---------------------------------------------------------------------------

/// A position clamped to a list length.
pub open spec fn clamp_index(i: usize, n: nat) -> int {
    if i <= n {
        i as int
    } else {
        n as int
    }
}

/// Insert `x` at `index`, or at the end when `index` is past it.
pub fn group_insert<T>(list: &mut Vec<T>, index: usize, x: T)
    ensures
        final(list)@ == old(list)@.insert(clamp_index(index, old(list)@.len()), x),
{
    let p = if index <= list.len() {
        index
    } else {
        list.len()
    };
    list.insert(p, x);
}

/// Remove the item at `index`; an index past the end changes nothing.
pub fn group_delete<T>(list: &mut Vec<T>, index: usize)
    ensures
        index < old(list)@.len() ==> final(list)@ == old(list)@.remove(index as int),
        index >= old(list)@.len() ==> final(list)@ == old(list)@,
{
    if index < list.len() {
        list.remove(index);
    }
}

/// Move the item at `old_index` to `new_index` (clamped to the end of the
/// shortened list); an `old_index` past the end changes nothing.
pub fn group_reorder<T>(list: &mut Vec<T>, old_index: usize, new_index: usize)
    ensures
        old_index < old(list)@.len() ==> final(list)@ == old(list)@.remove(old_index as int).insert(
            clamp_index(new_index, (old(list)@.len() - 1) as nat),
            old(list)@[old_index as int],
        ),
        old_index >= old(list)@.len() ==> final(list)@ == old(list)@,
{
    if old_index < list.len() {
        let item = list.remove(old_index);
        let p = if new_index <= list.len() {
            new_index
        } else {
            list.len()
        };
        list.insert(p, item);
    }
}

/// Empty the list (deleting every primitive).
pub fn group_clear<T>(list: &mut Vec<T>)
    ensures
        final(list)@ == Seq::<T>::empty(),
{
    list.clear();
}

/// Replace the list by `items` (restoring every primitive).
pub fn group_restore<T>(list: &mut Vec<T>, items: Vec<T>)
    ensures
        final(list)@ == items@,
{
    *list = items;
}

/// Replace the item at `index` by its edited version `x` (moved points,
/// visibility, lock, data); an index past the end changes nothing.
pub fn group_replace<T>(list: &mut Vec<T>, index: usize, x: T)
    ensures
        index < old(list)@.len() ==> final(list)@ == old(list)@.update(index as int, x),
        index >= old(list)@.len() ==> final(list)@ == old(list)@,
{
    if index < list.len() {
        list.set(index, x);
    }
}

/// Undoing a create removes exactly what was created: inserting at an index
/// within the list and then deleting at that index restores the list.
pub proof fn law_create_then_delete_restores<T>(s: Seq<T>, index: usize, x: T)
    requires
        index <= s.len(),
    ensures
        s.insert(clamp_index(index, s.len()), x).remove(index as int) == s,
{
    assert(s.insert(index as int, x).remove(index as int) =~= s);
}

/// Undoing a delete puts the primitive back where it was: deleting at an
/// index and inserting the deleted item at that index restores the list.
pub proof fn law_delete_then_create_restores<T>(s: Seq<T>, index: usize)
    requires
        index < s.len(),
    ensures
        s.remove(index as int).insert(clamp_index(index, (s.len() - 1) as nat), s[index as int]) == s,
{
    assert(s.remove(index as int).insert(index as int, s[index as int]) =~= s);
}

/// Undoing an edit of one primitive (points, visibility, lock, data)
/// restores the list: replacing the item and putting the old one back.
pub proof fn law_replace_then_restore<T>(s: Seq<T>, index: usize, x: T)
    requires
        index < s.len(),
    ensures
        s.update(index as int, x).update(index as int, s[index as int]) == s,
{
    assert(s.update(index as int, x).update(index as int, s[index as int]) =~= s);
}

/// Reordering within the list and reordering back restores it.
pub proof fn law_reorder_roundtrip<T>(s: Seq<T>, i: usize, j: usize)
    requires
        i < s.len(),
        j < s.len(),
    ensures
        ({
            let t = s.remove(i as int).insert(clamp_index(j, (s.len() - 1) as nat), s[i as int]);
            t.remove(j as int).insert(clamp_index(i, (t.len() - 1) as nat), t[j as int]) == s
        }),
{
    let t = s.remove(i as int).insert(j as int, s[i as int]);
    assert(t[j as int] == s[i as int]);
    assert(t.remove(j as int) =~= s.remove(i as int));
    assert(s.remove(i as int).insert(i as int, s[i as int]) =~= s);
}

/// Reordering keeps the length of the list.
pub proof fn law_reorder_keeps_length<T>(s: Seq<T>, i: usize, j: usize)
    requires
        i < s.len(),
    ensures
        s.remove(i as int).insert(clamp_index(j, (s.len() - 1) as nat), s[i as int]).len() == s.len(),
{
}

/// An edit of a group's primitive list as recorded for undo.
#[derive(Debug, Clone)]
pub enum GroupEdit<T> {
    /// Insert the item at the index (creating a primitive).
    Insert(usize, T),
    /// Delete the item at the index; the deleted item is kept for undo.
    Delete(usize, T),
    /// Replace the item at the index by the first item; the second is the
    /// item it replaced.
    Replace(usize, T, T),
    /// Move the item at the first index to the second.
    Reorder(usize, usize),
}

/// The list after an edit, as the group list functions make it.
pub open spec fn apply_edit_of<T>(s: Seq<T>, e: GroupEdit<T>) -> Seq<T> {
    match e {
        GroupEdit::Insert(i, x) => s.insert(clamp_index(i, s.len()), x),
        GroupEdit::Delete(i, _) => if i < s.len() {
            s.remove(i as int)
        } else {
            s
        },
        GroupEdit::Replace(i, x, _) => if i < s.len() {
            s.update(i as int, x)
        } else {
            s
        },
        GroupEdit::Reorder(i, j) => if i < s.len() {
            s.remove(i as int).insert(clamp_index(j, (s.len() - 1) as nat), s[i as int])
        } else {
            s
        },
    }
}

/// The edit that undoes `e`.
pub open spec fn inverse_edit_of<T>(e: GroupEdit<T>) -> GroupEdit<T> {
    match e {
        GroupEdit::Insert(i, x) => GroupEdit::Delete(i, x),
        GroupEdit::Delete(i, x) => GroupEdit::Insert(i, x),
        GroupEdit::Replace(i, x, old) => GroupEdit::Replace(i, old, x),
        GroupEdit::Reorder(i, j) => GroupEdit::Reorder(j, i),
    }
}

/// The edit was recorded against list `s`: its indices lie in the list
/// and the items it says were there are there.
pub open spec fn recorded_against<T>(s: Seq<T>, e: GroupEdit<T>) -> bool {
    match e {
        GroupEdit::Insert(i, _) => i <= s.len(),
        GroupEdit::Delete(i, x) => i < s.len() && s[i as int] == x,
        GroupEdit::Replace(i, _, old) => i < s.len() && s[i as int] == old,
        GroupEdit::Reorder(i, j) => i < s.len() && j < s.len(),
    }
}

/// Apply a recorded edit to a group's primitive list.
pub fn apply_group_edit<T>(list: &mut Vec<T>, e: GroupEdit<T>)
    ensures
        final(list)@ == apply_edit_of(old(list)@, e),
{
    match e {
        GroupEdit::Insert(i, x) => group_insert(list, i, x),
        GroupEdit::Delete(i, _) => group_delete(list, i),
        GroupEdit::Replace(i, x, _) => group_replace(list, i, x),
        GroupEdit::Reorder(i, j) => group_reorder(list, i, j),
    }
}

/// Undo then redo: undoing a recorded edit restores the list it was
/// recorded against, the undo edit is recorded against the edited list,
/// and redoing after the undo gives the edited list again.
pub proof fn law_undo_redo_roundtrip<T>(s: Seq<T>, e: GroupEdit<T>)
    requires
        recorded_against(s, e),
    ensures
        recorded_against(apply_edit_of(s, e), inverse_edit_of(e)),
        apply_edit_of(apply_edit_of(s, e), inverse_edit_of(e)) == s,
        apply_edit_of(apply_edit_of(apply_edit_of(s, e), inverse_edit_of(e)), e) == apply_edit_of(s, e),
{
    match e {
        GroupEdit::Insert(i, x) => {
            law_create_then_delete_restores(s, i, x);
        },
        GroupEdit::Delete(i, x) => {
            law_delete_then_create_restores(s, i);
        },
        GroupEdit::Replace(i, x, old) => {
            law_replace_then_restore(s, i, x);
        },
        GroupEdit::Reorder(i, j) => {
            law_reorder_roundtrip(s, i, j);
            let t = s.remove(i as int).insert(j as int, s[i as int]);
            assert(t[j as int] == s[i as int]);
        },
    }
}

} // verus!
