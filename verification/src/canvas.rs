//! What a click on the chart canvas does. The pixel hit tests (scale
//! corner, sub-pane buttons, drawing primitives, indicator lines) are made
//! by the caller in the order the handler tries them; the first hit is
//! handed in, and this module decides the action and the indicator
//! selection that follows.

use vstd::prelude::*;
use crate::panes::{SubPaneSlot, PaneMove, move_up_of, move_down_of, applied, move_sub_pane_up, move_sub_pane_down};

verus! {

/// The buttons drawn over a sub-pane.
#[derive(Debug, Clone, Copy, PartialEq, Eq)]
pub enum SubPaneButton {
    Delete,
    Hide,
    MoveUp,
    MoveDown,
    Expand,
    Restore,
    IndicatorEye,
    IndicatorAlert,
    IndicatorSettings,
    IndicatorDelete,
}

/// The first thing under a canvas click, in the order the handler tries.
#[derive(Debug, Clone, Copy, PartialEq, Eq)]
pub enum CanvasHit {
    /// The scale corner's auto/manual button.
    ScaleAutoManual,
    /// The scale corner's linear/log/percent button.
    ScaleMode,
    /// A sub-pane button; the instance is 0 when the overlay could not be
    /// resolved.
    SubPaneButton { instance_id: u64, button: SubPaneButton },
    /// A drawing tool is active: the click places a point.
    DrawingTool,
    /// A drawing primitive, in the main chart (`pane` is `None`) or in the
    /// sub-pane of that indicator instance.
    Primitive { pane: Option<u64>, index: usize },
    /// The line of a sub-pane indicator.
    SubPaneIndicator(u64),
    /// The line of an indicator drawn over the main chart.
    OverlayIndicator(u64),
    /// Nothing.
    Nothing,
}

/// What the click does.
#[derive(Debug, Clone, Copy, PartialEq, Eq)]
pub enum CanvasAction {
    /// Cycle the price scale's auto/manual mode and tell the sync group.
    CycleScaleMode,
    /// Cycle linear/log/percent.
    TogglePriceScaleMode,
    DeleteIndicator(u64),
    /// Toggle the indicator's visibility, redraw the sidebar, autosave.
    ToggleIndicatorVisibility(u64),
    /// Move the pane of this instance one place up, then autosave.
    MovePaneUp(u64),
    MovePaneDown(u64),
    /// Maximise the pane of this instance (and un-maximise the others).
    MaximizePane(u64),
    /// Restore the pane of this instance to its height before maximising.
    RestorePane(u64),
    OpenIndicatorSettings(u64),
    /// Hand the click to the active drawing tool.
    DrawingClick,
    /// Select the primitive (deselecting those of the other windows).
    SelectPrimitive { pane: Option<u64>, index: usize },
    /// Deselect the drawings of every window.
    DeselectDrawings,
    /// Nothing beyond the selection change.
    NoAction,
}

/// The action of a sub-pane button of instance `id`.
pub open spec fn button_action_of(id: u64, b: SubPaneButton) -> CanvasAction {
    if id == 0 {
        CanvasAction::NoAction
    } else {
        match b {
            SubPaneButton::Delete | SubPaneButton::IndicatorDelete => CanvasAction::DeleteIndicator(id),
            SubPaneButton::Hide | SubPaneButton::IndicatorEye => CanvasAction::ToggleIndicatorVisibility(id),
            SubPaneButton::MoveUp => CanvasAction::MovePaneUp(id),
            SubPaneButton::MoveDown => CanvasAction::MovePaneDown(id),
            SubPaneButton::Expand => CanvasAction::MaximizePane(id),
            SubPaneButton::Restore => CanvasAction::RestorePane(id),
            SubPaneButton::IndicatorSettings => CanvasAction::OpenIndicatorSettings(id),
            SubPaneButton::IndicatorAlert => CanvasAction::NoAction,
        }
    }
}

/// The action of a click whose first hit is `hit`, and the selected
/// indicator after it (`selected` before): selecting a primitive clears
/// the indicator selection; a sub-pane indicator's line toggles its
/// selection and, when it selects, deselects the drawings; an overlay
/// indicator's line selects it and deselects the drawings; a click on
/// nothing clears both selections; buttons and drawing leave the selection.
pub open spec fn canvas_click_of(hit: CanvasHit, selected: Option<u64>) -> (CanvasAction, Option<u64>) {
    match hit {
        CanvasHit::ScaleAutoManual => (CanvasAction::CycleScaleMode, selected),
        CanvasHit::ScaleMode => (CanvasAction::TogglePriceScaleMode, selected),
        CanvasHit::SubPaneButton { instance_id, button } => (button_action_of(instance_id, button), selected),
        CanvasHit::DrawingTool => (CanvasAction::DrawingClick, selected),
        CanvasHit::Primitive { pane, index } => (CanvasAction::SelectPrimitive { pane, index }, None),
        CanvasHit::SubPaneIndicator(id) => if selected == Some(id) {
            (CanvasAction::NoAction, None)
        } else {
            (CanvasAction::DeselectDrawings, Some(id))
        },
        CanvasHit::OverlayIndicator(id) => (CanvasAction::DeselectDrawings, Some(id)),
        CanvasHit::Nothing => (CanvasAction::DeselectDrawings, None),
    }
}

/// Decide the action of a sub-pane button.
fn button_action(id: u64, b: SubPaneButton) -> (a: CanvasAction)
    ensures
        a == button_action_of(id, b),
{
    if id == 0 {
        return CanvasAction::NoAction;
    }
    match b {
        SubPaneButton::Delete | SubPaneButton::IndicatorDelete => CanvasAction::DeleteIndicator(id),
        SubPaneButton::Hide | SubPaneButton::IndicatorEye => CanvasAction::ToggleIndicatorVisibility(id),
        SubPaneButton::MoveUp => CanvasAction::MovePaneUp(id),
        SubPaneButton::MoveDown => CanvasAction::MovePaneDown(id),
        SubPaneButton::Expand => CanvasAction::MaximizePane(id),
        SubPaneButton::Restore => CanvasAction::RestorePane(id),
        SubPaneButton::IndicatorSettings => CanvasAction::OpenIndicatorSettings(id),
        SubPaneButton::IndicatorAlert => CanvasAction::NoAction,
    }
}

/// Decide what a canvas click does and the indicator selection after it.
pub fn canvas_click(hit: CanvasHit, selected: Option<u64>) -> (r: (CanvasAction, Option<u64>))
    ensures
        r == canvas_click_of(hit, selected),
{
    match hit {
        CanvasHit::ScaleAutoManual => (CanvasAction::CycleScaleMode, selected),
        CanvasHit::ScaleMode => (CanvasAction::TogglePriceScaleMode, selected),
        CanvasHit::SubPaneButton { instance_id, button } => (button_action(instance_id, button), selected),
        CanvasHit::DrawingTool => (CanvasAction::DrawingClick, selected),
        CanvasHit::Primitive { pane, index } => (CanvasAction::SelectPrimitive { pane, index }, None),
        CanvasHit::SubPaneIndicator(id) => {
            if selected == Some(id) {
                (CanvasAction::NoAction, None)
            } else {
                (CanvasAction::DeselectDrawings, Some(id))
            }
        },
        CanvasHit::OverlayIndicator(id) => (CanvasAction::DeselectDrawings, Some(id)),
        CanvasHit::Nothing => (CanvasAction::DeselectDrawings, None),
    }
}

/// Two clicks on the same sub-pane indicator line leave its selection as
/// it was; a click on nothing always clears the selection.
pub proof fn law_indicator_click_toggles(id: u64, selected: Option<u64>)
    ensures
        canvas_click_of(
            CanvasHit::SubPaneIndicator(id),
            canvas_click_of(CanvasHit::SubPaneIndicator(id), selected).1,
        ).1 == (if selected == Some(id) {
            Some(id)
        } else {
            None::<u64>
        }),
        canvas_click_of(CanvasHit::SubPaneIndicator(id), selected).1 != selected,
        canvas_click_of(CanvasHit::Nothing, selected).1 is None,
{
}

/// A resolved sub-pane button acts on the pane's own indicator instance
/// and leaves the indicator selection alone: delete buttons delete it, the
/// hide and eye buttons toggle its visibility, the move buttons move its
/// pane, expand and restore maximise and restore it, the settings button
/// opens its settings, and the alert button does nothing yet. An
/// unresolved button (instance 0) does nothing.
pub proof fn law_button_acts_on_its_instance(id: u64, b: SubPaneButton, selected: Option<u64>)
    ensures
        canvas_click_of(CanvasHit::SubPaneButton { instance_id: id, button: b }, selected).1 == selected,
        id == 0 ==> canvas_click_of(CanvasHit::SubPaneButton { instance_id: id, button: b }, selected).0
            == CanvasAction::NoAction,
        id != 0 ==> ({
            let a = canvas_click_of(CanvasHit::SubPaneButton { instance_id: id, button: b }, selected).0;
            match b {
                SubPaneButton::Delete | SubPaneButton::IndicatorDelete => a == CanvasAction::DeleteIndicator(id),
                SubPaneButton::Hide | SubPaneButton::IndicatorEye => a
                    == CanvasAction::ToggleIndicatorVisibility(id),
                SubPaneButton::MoveUp => a == CanvasAction::MovePaneUp(id),
                SubPaneButton::MoveDown => a == CanvasAction::MovePaneDown(id),
                SubPaneButton::Expand => a == CanvasAction::MaximizePane(id),
                SubPaneButton::Restore => a == CanvasAction::RestorePane(id),
                SubPaneButton::IndicatorSettings => a == CanvasAction::OpenIndicatorSettings(id),
                SubPaneButton::IndicatorAlert => a == CanvasAction::NoAction,
            }
        }),
{
}

/// Selecting a primitive clears the indicator selection, an overlay
/// indicator's line selects that indicator, and either deselects the
/// drawings only when an indicator ends up selected.
pub proof fn law_selection_after_hits(pane: Option<u64>, index: usize, id: u64, selected: Option<u64>)
    ensures
        canvas_click_of(CanvasHit::Primitive { pane, index }, selected) == (
            CanvasAction::SelectPrimitive { pane, index },
            None::<u64>,
        ),
        canvas_click_of(CanvasHit::OverlayIndicator(id), selected).1 == Some(id),
        canvas_click_of(CanvasHit::SubPaneIndicator(id), selected).1 is Some ==> canvas_click_of(
            CanvasHit::SubPaneIndicator(id),
            selected,
        ).0 == CanvasAction::DeselectDrawings,
        canvas_click_of(CanvasHit::DrawingTool, selected) == (CanvasAction::DrawingClick, selected),
{
}

/// `i` is the position of the first pane showing instance `id`.
pub open spec fn is_first_pane(s: Seq<SubPaneSlot>, id: u64, i: int) -> bool {
    &&& 0 <= i < s.len()
    &&& s[i].instance_id == id
    &&& forall|j: int| 0 <= j < i ==> #[trigger] s[j].instance_id != id
}

/// The position of the first pane showing instance `id`, if any.
pub open spec fn pane_position_of(s: Seq<SubPaneSlot>, id: u64) -> Option<usize> {
    if exists|i: int| is_first_pane(s, id, i) {
        Some((choose|i: int| is_first_pane(s, id, i)) as usize)
    } else {
        None
    }
}

/// Find the pane showing instance `id`.
pub fn pane_position(panes: &Vec<SubPaneSlot>, id: u64) -> (r: Option<usize>)
    ensures
        r == pane_position_of(panes@, id),
{
    let mut i: usize = 0;
    while i < panes.len()
        invariant
            i <= panes@.len(),
            forall|j: int| 0 <= j < i ==> #[trigger] panes@[j].instance_id != id,
        decreases panes@.len() - i,
    {
        if panes[i].instance_id == id {
            proof {
                assert(is_first_pane(panes@, id, i as int));
                let c = choose|c: int| is_first_pane(panes@, id, c);
                if c < i {
                    assert(panes@[c].instance_id != id);
                } else if c > i {
                    assert(panes@[i as int].instance_id != id);
                }
            }
            return Some(i);
        }
        i = i + 1;
    }
    proof {
        if exists|k: int| is_first_pane(panes@, id, k) {
            let k = choose|k: int| is_first_pane(panes@, id, k);
            assert(panes@[k].instance_id == id);
        }
    }
    None
}

/// Press the move button (`up` or down) of the pane showing instance `id`;
/// when no pane shows it nothing moves.
pub fn move_pane_of_instance(panes: &mut Vec<SubPaneSlot>, id: u64, up: bool) -> (m: PaneMove)
    ensures
        m == match pane_position_of(old(panes)@, id) {
            Some(i) => if up {
                move_up_of(old(panes)@, i)
            } else {
                move_down_of(old(panes)@, i)
            },
            None => PaneMove::Stay,
        },
        final(panes)@ == applied(old(panes)@, m),
{
    match pane_position(panes, id) {
        Some(i) => {
            if up {
                move_sub_pane_up(panes, i)
            } else {
                move_sub_pane_down(panes, i)
            }
        },
        None => PaneMove::Stay,
    }
}

/// A double click on the price scale of the sub-pane at `pane_index`
/// turns that pane's auto-scale on (`auto_scale` holds each pane's flag in
/// pane order); a position past the panes changes nothing. The main
/// chart's scale mode then returns to Auto, which the caller sets and
/// passes on to the sync group.
pub fn sub_pane_scale_double_click(auto_scale: &mut Vec<bool>, pane_index: usize)
    ensures
        pane_index < old(auto_scale)@.len() ==> final(auto_scale)@ == old(auto_scale)@.update(
            pane_index as int,
            true,
        ),
        pane_index >= old(auto_scale)@.len() ==> final(auto_scale)@ == old(auto_scale)@,
{
    if pane_index < auto_scale.len() {
        auto_scale.set(pane_index, true);
    }
}

} // verus!
