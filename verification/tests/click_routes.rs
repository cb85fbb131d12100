use chart_input::clicks::{
    click_outcome, leave_hides_crosshair, right_click_outcome, ClickAction, ClickFacts, ClickOutcome,
    RightClickAction, RightClickHit, RightClickOutcome, ScaleCornerButton, SplitTarget,
};

fn facts() -> ClickFacts {
    ClickFacts {
        widget_hit: false,
        slot_panel_hit: false,
        in_modal_layer: false,
        split: SplitTarget::NotSplit,
        click_drawing_tool: false,
    }
}

#[test]
fn widget_takes_click_before_everything() {
    let mut f = facts();
    f.widget_hit = true;
    f.in_modal_layer = true;
    assert_eq!(
        click_outcome(f),
        ClickOutcome { close_overlays: false, activate_leaf: None, action: ClickAction::DispatchWidget }
    );
    let mut g = facts();
    g.slot_panel_hit = true;
    assert_eq!(click_outcome(g).action, ClickAction::SlotPanel);
    assert!(!click_outcome(g).close_overlays);
}

#[test]
fn modal_backdrop_closes_topmost_layer() {
    let mut f = facts();
    f.in_modal_layer = true;
    f.split = SplitTarget::Leaf(3);
    assert_eq!(
        click_outcome(f),
        ClickOutcome { close_overlays: false, activate_leaf: None, action: ClickAction::CloseTopmostLayer }
    );
}

#[test]
fn canvas_click_closes_overlays_and_activates_leaf() {
    assert_eq!(
        click_outcome(facts()),
        ClickOutcome { close_overlays: true, activate_leaf: None, action: ClickAction::Canvas }
    );
    let mut f = facts();
    f.split = SplitTarget::Leaf(5);
    assert_eq!(
        click_outcome(f),
        ClickOutcome { close_overlays: true, activate_leaf: Some(5), action: ClickAction::Canvas }
    );
    f.click_drawing_tool = true;
    assert_eq!(click_outcome(f).action, ClickAction::NoAction);
    assert_eq!(click_outcome(f).activate_leaf, Some(5));
}

#[test]
fn split_separator_and_scale_corner() {
    let mut f = facts();
    f.split = SplitTarget::Separator;
    assert_eq!(
        click_outcome(f),
        ClickOutcome { close_overlays: true, activate_leaf: None, action: ClickAction::NoAction }
    );
    f.split = SplitTarget::ScaleCorner(2, ScaleCornerButton::AutoManual);
    f.click_drawing_tool = true;
    assert_eq!(
        click_outcome(f),
        ClickOutcome {
            close_overlays: true,
            activate_leaf: Some(2),
            action: ClickAction::ScaleCorner(ScaleCornerButton::AutoManual)
        }
    );
    f.split = SplitTarget::Outside;
    assert_eq!(click_outcome(f).action, ClickAction::NoAction);
}

#[test]
fn right_click_suppressed_by_open_modal() {
    assert_eq!(
        right_click_outcome(true, SplitTarget::Leaf(1), RightClickHit::Background),
        RightClickOutcome { close_menus: false, activate_leaf: None, action: RightClickAction::NoAction }
    );
}

#[test]
fn right_click_menus() {
    assert_eq!(
        right_click_outcome(false, SplitTarget::NotSplit, RightClickHit::Primitive(4)),
        RightClickOutcome { close_menus: true, activate_leaf: None, action: RightClickAction::PrimitiveMenu(4) }
    );
    assert_eq!(
        right_click_outcome(false, SplitTarget::Leaf(9), RightClickHit::Indicator(77)).action,
        RightClickAction::IndicatorSettings(77)
    );
    assert_eq!(
        right_click_outcome(false, SplitTarget::ScaleCorner(6, ScaleCornerButton::Mode), RightClickHit::Background),
        RightClickOutcome { close_menus: true, activate_leaf: Some(6), action: RightClickAction::BackgroundMenu }
    );
    assert_eq!(
        right_click_outcome(false, SplitTarget::Separator, RightClickHit::Miss),
        RightClickOutcome { close_menus: true, activate_leaf: None, action: RightClickAction::NoAction }
    );
}

#[test]
fn leaving_keeps_crosshair_while_drawing() {
    assert!(leave_hides_crosshair(false, false, &vec![true]));
    assert!(!leave_hides_crosshair(false, true, &vec![]));
    assert!(!leave_hides_crosshair(true, false, &vec![false, true, false]));
    assert!(leave_hides_crosshair(true, true, &vec![false, false]));
    assert!(leave_hides_crosshair(true, false, &vec![]));
}
