use chart_input::canvas::{
    canvas_click, move_pane_of_instance, pane_position, sub_pane_scale_double_click, CanvasAction, CanvasHit, SubPaneButton,
};
use chart_input::panes::{PaneMove, SubPaneSlot};

fn pane(id: u64, above: bool) -> SubPaneSlot {
    SubPaneSlot { instance_id: id, above_main: above }
}

#[test]
fn scale_corner_buttons_keep_selection() {
    assert_eq!(canvas_click(CanvasHit::ScaleAutoManual, Some(4)), (CanvasAction::CycleScaleMode, Some(4)));
    assert_eq!(canvas_click(CanvasHit::ScaleMode, None), (CanvasAction::TogglePriceScaleMode, None));
}

#[test]
fn sub_pane_buttons_map_to_actions() {
    let b = |button| canvas_click(CanvasHit::SubPaneButton { instance_id: 9, button }, Some(2)).0;
    assert_eq!(b(SubPaneButton::Delete), CanvasAction::DeleteIndicator(9));
    assert_eq!(b(SubPaneButton::IndicatorDelete), CanvasAction::DeleteIndicator(9));
    assert_eq!(b(SubPaneButton::Hide), CanvasAction::ToggleIndicatorVisibility(9));
    assert_eq!(b(SubPaneButton::IndicatorEye), CanvasAction::ToggleIndicatorVisibility(9));
    assert_eq!(b(SubPaneButton::MoveUp), CanvasAction::MovePaneUp(9));
    assert_eq!(b(SubPaneButton::MoveDown), CanvasAction::MovePaneDown(9));
    assert_eq!(b(SubPaneButton::Expand), CanvasAction::MaximizePane(9));
    assert_eq!(b(SubPaneButton::Restore), CanvasAction::RestorePane(9));
    assert_eq!(b(SubPaneButton::IndicatorSettings), CanvasAction::OpenIndicatorSettings(9));
    assert_eq!(b(SubPaneButton::IndicatorAlert), CanvasAction::NoAction);
}

#[test]
fn unresolved_sub_pane_button_does_nothing() {
    let hit = CanvasHit::SubPaneButton { instance_id: 0, button: SubPaneButton::Delete };
    assert_eq!(canvas_click(hit, Some(5)), (CanvasAction::NoAction, Some(5)));
}

#[test]
fn primitive_hit_clears_indicator_selection() {
    let hit = CanvasHit::Primitive { pane: Some(3), index: 2 };
    assert_eq!(
        canvas_click(hit, Some(7)),
        (CanvasAction::SelectPrimitive { pane: Some(3), index: 2 }, None)
    );
    assert_eq!(canvas_click(CanvasHit::DrawingTool, Some(7)), (CanvasAction::DrawingClick, Some(7)));
}

#[test]
fn sub_pane_indicator_click_toggles_selection() {
    let (a, sel) = canvas_click(CanvasHit::SubPaneIndicator(6), None);
    assert_eq!((a, sel), (CanvasAction::DeselectDrawings, Some(6)));
    let (a2, sel2) = canvas_click(CanvasHit::SubPaneIndicator(6), sel);
    assert_eq!((a2, sel2), (CanvasAction::NoAction, None));
    assert_eq!(canvas_click(CanvasHit::SubPaneIndicator(6), Some(1)).1, Some(6));
}

#[test]
fn overlay_indicator_and_empty_click() {
    assert_eq!(
        canvas_click(CanvasHit::OverlayIndicator(8), Some(8)),
        (CanvasAction::DeselectDrawings, Some(8))
    );
    assert_eq!(canvas_click(CanvasHit::Nothing, Some(8)), (CanvasAction::DeselectDrawings, None));
}

#[test]
fn pane_lookup_by_instance() {
    let v = vec![pane(11, true), pane(12, false), pane(12, false)];
    assert_eq!(pane_position(&v, 12), Some(1));
    assert_eq!(pane_position(&v, 11), Some(0));
    assert_eq!(pane_position(&v, 99), None);
}

#[test]
fn move_button_moves_pane_of_instance() {
    let mut v = vec![pane(11, true), pane(12, false), pane(13, false)];
    assert_eq!(move_pane_of_instance(&mut v, 13, true), PaneMove::Swap(2, 1));
    assert_eq!(v, vec![pane(11, true), pane(13, false), pane(12, false)]);
    assert_eq!(move_pane_of_instance(&mut v, 13, true), PaneMove::SetAboveMain(1, true));
    assert_eq!(v[1], pane(13, true));
    assert_eq!(move_pane_of_instance(&mut v, 42, false), PaneMove::Stay);
    assert_eq!(v, vec![pane(11, true), pane(13, true), pane(12, false)]);
}

#[test]
fn sub_pane_scale_double_click_turns_auto_on() {
    let mut a = vec![false, false, true];
    sub_pane_scale_double_click(&mut a, 1);
    assert_eq!(a, vec![false, true, true]);
    sub_pane_scale_double_click(&mut a, 5);
    assert_eq!(a, vec![false, true, true]);
}
