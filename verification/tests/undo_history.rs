use chart_input::undo::{
    apply_group_edit, apply_target, follow_up, lock_toggle_record, visibility_toggle_record, FlagToggle, GroupEdit, group_clear, group_delete, group_insert, group_reorder, group_replace,
    group_restore, is_shared_command, push_target, step_source, ApplyTarget, CommandKind, FollowUp,
    HistorySource, HistoryTarget,
};

const ALL: [CommandKind; 22] = [
    CommandKind::CreatePrimitive,
    CommandKind::DeletePrimitive,
    CommandKind::DeleteAllPrimitives,
    CommandKind::RestoreAllPrimitives,
    CommandKind::MovePrimitive,
    CommandKind::SetPrimitiveVisibility,
    CommandKind::SetPrimitiveLock,
    CommandKind::ModifyPrimitiveData,
    CommandKind::ModifyPrimitiveFull,
    CommandKind::ReorderPrimitive,
    CommandKind::AddIndicator,
    CommandKind::RemoveIndicator,
    CommandKind::ViewportChange,
    CommandKind::ChangeChartType,
    CommandKind::ChangeSymbol,
    CommandKind::ChangeTimeframe,
    CommandKind::AddCompareSeries,
    CommandKind::RemoveCompareSeries,
    CommandKind::SetCompareSeriesVisibility,
    CommandKind::SetCompareSeriesColor,
    CommandKind::ClearAllCompareSeries,
    CommandKind::RestoreAllCompareSeries,
];

#[test]
fn primitives_and_indicators_are_shared() {
    let shared: Vec<CommandKind> = ALL.iter().copied().filter(|k| is_shared_command(*k)).collect();
    assert_eq!(shared, ALL[..12].to_vec());
}

#[test]
fn shared_commands_go_to_existing_group() {
    assert_eq!(push_target(CommandKind::CreatePrimitive, Some(7), true), HistoryTarget::Group(7));
    assert_eq!(push_target(CommandKind::AddIndicator, Some(3), true), HistoryTarget::Group(3));
    assert_eq!(push_target(CommandKind::CreatePrimitive, Some(7), false), HistoryTarget::Window);
    assert_eq!(push_target(CommandKind::CreatePrimitive, None, true), HistoryTarget::Window);
}

#[test]
fn local_commands_stay_in_window() {
    for k in ALL[12..].iter() {
        assert_eq!(push_target(*k, Some(7), true), HistoryTarget::Window);
        assert_eq!(push_target(*k, None, false), HistoryTarget::Window);
    }
}

#[test]
fn undo_tries_group_history_first() {
    assert_eq!(step_source(Some(4), true, true), HistorySource::Group(4));
    assert_eq!(step_source(Some(4), false, true), HistorySource::Window);
    assert_eq!(step_source(Some(4), false, false), HistorySource::Nothing);
    assert_eq!(step_source(None, true, true), HistorySource::Window);
    assert_eq!(step_source(None, true, false), HistorySource::Nothing);
}

#[test]
fn follow_up_of_each_kind() {
    assert_eq!(follow_up(CommandKind::ChangeSymbol), FollowUp::RecalcAndPropagateSymbol);
    assert_eq!(follow_up(CommandKind::ChangeTimeframe), FollowUp::RecalcAndPropagateTimeframe);
    for k in [
        CommandKind::AddIndicator,
        CommandKind::RemoveIndicator,
        CommandKind::CreatePrimitive,
        CommandKind::DeletePrimitive,
        CommandKind::DeleteAllPrimitives,
        CommandKind::RestoreAllPrimitives,
        CommandKind::MovePrimitive,
        CommandKind::ModifyPrimitiveData,
        CommandKind::ModifyPrimitiveFull,
    ] {
        assert_eq!(follow_up(k), FollowUp::Autosave);
    }
    for k in [
        CommandKind::SetPrimitiveVisibility,
        CommandKind::SetPrimitiveLock,
        CommandKind::ReorderPrimitive,
        CommandKind::ViewportChange,
        CommandKind::ChangeChartType,
        CommandKind::AddCompareSeries,
        CommandKind::ClearAllCompareSeries,
    ] {
        assert_eq!(follow_up(k), FollowUp::Nothing);
    }
}

#[test]
fn group_insert_clamps_to_end() {
    let mut v = vec!['a', 'b', 'c'];
    group_insert(&mut v, 1, 'x');
    assert_eq!(v, vec!['a', 'x', 'b', 'c']);
    group_insert(&mut v, 99, 'y');
    assert_eq!(v, vec!['a', 'x', 'b', 'c', 'y']);
    group_insert(&mut v, 0, 'z');
    assert_eq!(v, vec!['z', 'a', 'x', 'b', 'c', 'y']);
}

#[test]
fn group_delete_ignores_missing_index() {
    let mut v = vec![1, 2, 3];
    group_delete(&mut v, 5);
    assert_eq!(v, vec![1, 2, 3]);
    group_delete(&mut v, 1);
    assert_eq!(v, vec![1, 3]);
}

#[test]
fn create_then_delete_restores() {
    let orig = vec![10, 20, 30, 40];
    for i in 0..=orig.len() {
        let mut v = orig.clone();
        group_insert(&mut v, i, 99);
        group_delete(&mut v, i);
        assert_eq!(v, orig);
    }
}

#[test]
fn group_reorder_moves_one_item() {
    let mut v = vec!['a', 'b', 'c', 'd'];
    group_reorder(&mut v, 0, 2);
    assert_eq!(v, vec!['b', 'c', 'a', 'd']);
    group_reorder(&mut v, 3, 0);
    assert_eq!(v, vec!['d', 'b', 'c', 'a']);
    group_reorder(&mut v, 1, 50);
    assert_eq!(v, vec!['d', 'c', 'a', 'b']);
    group_reorder(&mut v, 9, 0);
    assert_eq!(v, vec!['d', 'c', 'a', 'b']);
}

#[test]
fn reorder_and_back_restores() {
    let orig = vec![1, 2, 3, 4, 5];
    for i in 0..orig.len() {
        for j in 0..orig.len() {
            let mut v = orig.clone();
            group_reorder(&mut v, i, j);
            assert_eq!(v.len(), orig.len());
            group_reorder(&mut v, j, i);
            assert_eq!(v, orig);
        }
    }
}

#[test]
fn primitive_commands_apply_to_group_list_when_grouped() {
    assert_eq!(apply_target(CommandKind::CreatePrimitive, Some(7)), ApplyTarget::GroupPrimitives(7));
    assert_eq!(apply_target(CommandKind::ModifyPrimitiveData, Some(7)), ApplyTarget::GroupPrimitives(7));
    assert_eq!(apply_target(CommandKind::CreatePrimitive, None), ApplyTarget::WindowDrawings);
    assert_eq!(apply_target(CommandKind::ReorderPrimitive, None), ApplyTarget::WindowDrawings);
    assert_eq!(apply_target(CommandKind::ModifyPrimitiveData, None), ApplyTarget::WindowDrawingsSyncBack);
}

#[test]
fn other_commands_apply_to_window_or_indicators() {
    assert_eq!(apply_target(CommandKind::AddIndicator, Some(3)), ApplyTarget::Indicators);
    assert_eq!(apply_target(CommandKind::RemoveIndicator, None), ApplyTarget::Indicators);
    assert_eq!(apply_target(CommandKind::ChangeSymbol, Some(3)), ApplyTarget::Window);
    assert_eq!(apply_target(CommandKind::ViewportChange, None), ApplyTarget::Window);
    assert_eq!(apply_target(CommandKind::ModifyPrimitiveFull, Some(3)), ApplyTarget::Unhandled);
}

#[test]
fn applied_where_recorded() {
    for k in ALL {
        if !is_shared_command(k) {
            assert_eq!(push_target(k, Some(4), true), HistoryTarget::Window);
            assert_eq!(apply_target(k, Some(4)), ApplyTarget::Window);
        }
    }
    assert_eq!(push_target(CommandKind::MovePrimitive, Some(4), true), HistoryTarget::Group(4));
    assert_eq!(apply_target(CommandKind::MovePrimitive, Some(4)), ApplyTarget::GroupPrimitives(4));
}

#[test]
fn group_clear_restore_and_replace() {
    let mut v = vec![1, 2, 3];
    group_replace(&mut v, 1, 20);
    assert_eq!(v, vec![1, 20, 3]);
    group_replace(&mut v, 3, 99);
    assert_eq!(v, vec![1, 20, 3]);
    group_replace(&mut v, 1, 2);
    assert_eq!(v, vec![1, 2, 3]);
    let saved = v.clone();
    group_clear(&mut v);
    assert!(v.is_empty());
    group_restore(&mut v, saved);
    assert_eq!(v, vec![1, 2, 3]);
}

#[test]
fn delete_then_create_restores() {
    let mut v = vec!['a', 'b', 'c', 'd'];
    let removed = v[2];
    group_delete(&mut v, 2);
    assert_eq!(v, vec!['a', 'b', 'd']);
    group_insert(&mut v, 2, removed);
    assert_eq!(v, vec!['a', 'b', 'c', 'd']);
}

#[test]
fn toggle_records_negate_the_old_flag() {
    assert_eq!(lock_toggle_record(3, Some(true)), FlagToggle { index: 3, value: false, previous: true });
    assert_eq!(lock_toggle_record(3, None), FlagToggle { index: 3, value: true, previous: false });
    assert_eq!(visibility_toggle_record(1, Some(false)), FlagToggle { index: 1, value: true, previous: false });
    assert_eq!(visibility_toggle_record(1, None), FlagToggle { index: 1, value: false, previous: true });
}

#[test]
fn undo_then_redo_of_group_edits() {
    let base = vec!['a', 'b', 'c'];
    let edits = vec![
        (GroupEdit::Insert(1, 'x'), GroupEdit::Delete(1, 'x')),
        (GroupEdit::Delete(2, 'c'), GroupEdit::Insert(2, 'c')),
        (GroupEdit::Replace(0, 'z', 'a'), GroupEdit::Replace(0, 'a', 'z')),
        (GroupEdit::Reorder(0, 2), GroupEdit::Reorder(2, 0)),
    ];
    for (e, inv) in edits {
        let mut v = base.clone();
        apply_group_edit(&mut v, e.clone());
        let edited = v.clone();
        assert_ne!(edited, base);
        apply_group_edit(&mut v, inv);
        assert_eq!(v, base);
        apply_group_edit(&mut v, e);
        assert_eq!(v, edited);
    }
}
