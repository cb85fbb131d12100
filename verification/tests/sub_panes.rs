use chart_input::panes::{move_sub_pane_down, move_sub_pane_up, PaneMove, SubPaneSlot};

fn panes(spec: &[(u64, bool)]) -> Vec<SubPaneSlot> {
    spec.iter().map(|&(instance_id, above_main)| SubPaneSlot { instance_id, above_main }).collect()
}

fn layout(p: &[SubPaneSlot]) -> Vec<(u64, bool)> {
    p.iter().map(|s| (s.instance_id, s.above_main)).collect()
}

#[test]
fn move_up_within_above_group() {
    let mut p = panes(&[(1, true), (2, true), (3, false)]);
    assert_eq!(move_sub_pane_up(&mut p, 1), PaneMove::Swap(1, 0));
    assert_eq!(layout(&p), vec![(2, true), (1, true), (3, false)]);
    // The topmost pane stays.
    assert_eq!(move_sub_pane_up(&mut p, 0), PaneMove::Stay);
    assert_eq!(layout(&p), vec![(2, true), (1, true), (3, false)]);
}

#[test]
fn first_pane_below_crosses_the_main_chart() {
    let mut p = panes(&[(1, true), (2, false), (3, false)]);
    assert_eq!(move_sub_pane_up(&mut p, 1), PaneMove::SetAboveMain(1, true));
    assert_eq!(layout(&p), vec![(1, true), (2, true), (3, false)]);
    let mut q = panes(&[(7, false)]);
    assert_eq!(move_sub_pane_up(&mut q, 0), PaneMove::SetAboveMain(0, true));
    assert_eq!(layout(&q), vec![(7, true)]);
}

#[test]
fn move_up_within_below_group() {
    let mut p = panes(&[(1, true), (2, false), (3, false)]);
    assert_eq!(move_sub_pane_up(&mut p, 2), PaneMove::Swap(2, 1));
    assert_eq!(layout(&p), vec![(1, true), (3, false), (2, false)]);
}

#[test]
fn move_down_cases() {
    let mut p = panes(&[(1, true), (2, true), (3, false), (4, false)]);
    assert_eq!(move_sub_pane_down(&mut p, 0), PaneMove::Swap(0, 1));
    assert_eq!(layout(&p), vec![(2, true), (1, true), (3, false), (4, false)]);
    // The last pane above goes below the main chart.
    assert_eq!(move_sub_pane_down(&mut p, 1), PaneMove::SetAboveMain(1, false));
    assert_eq!(layout(&p), vec![(2, true), (1, false), (3, false), (4, false)]);
    assert_eq!(move_sub_pane_down(&mut p, 2), PaneMove::Swap(2, 3));
    assert_eq!(layout(&p), vec![(2, true), (1, false), (4, false), (3, false)]);
    // The bottom pane stays.
    assert_eq!(move_sub_pane_down(&mut p, 3), PaneMove::Stay);
    assert_eq!(move_sub_pane_down(&mut p, 9), PaneMove::Stay);
    assert_eq!(move_sub_pane_up(&mut p, 9), PaneMove::Stay);
}

fn partitioned(p: &[SubPaneSlot]) -> bool {
    let first_below = p.iter().position(|s| !s.above_main).unwrap_or(p.len());
    p[first_below..].iter().all(|s| !s.above_main)
}

#[test]
fn moves_keep_partition_and_undo_each_other() {
    let layouts: Vec<Vec<(u64, bool)>> = vec![
        vec![],
        vec![(1, true)],
        vec![(1, false)],
        vec![(1, true), (2, true), (3, false), (4, false)],
        vec![(1, true), (2, false), (3, false)],
        vec![(1, false), (2, false), (3, false)],
        vec![(1, true), (2, true), (3, true)],
    ];
    for l in layouts {
        let start = panes(&l);
        for idx in 0..start.len() {
            let mut p = start.clone();
            let m = move_sub_pane_up(&mut p, idx);
            assert!(partitioned(&p));
            assert_eq!(p.len(), start.len());
            if m != PaneMove::Stay {
                let to = if let PaneMove::Swap(_, j) = m { j } else { idx };
                move_sub_pane_down(&mut p, to);
                assert_eq!(p, start);
            }
            let mut p = start.clone();
            let m = move_sub_pane_down(&mut p, idx);
            assert!(partitioned(&p));
            if m != PaneMove::Stay {
                let to = if let PaneMove::Swap(_, j) = m { j } else { idx };
                move_sub_pane_up(&mut p, to);
                assert_eq!(p, start);
            }
        }
    }
}
