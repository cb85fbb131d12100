//! Where a left click, a right click and the pointer leaving the window
//! go. The pixel tests (registered widgets, the modal layers, the split
//! layout, the primitives and indicator lines) are the caller's; their
//! answers are handed in and the order in which they decide is kept here.

use vstd::prelude::*;

verus! {

/// The buttons of a chart's scale corner.
#[derive(Debug, Clone, Copy, PartialEq, Eq)]
pub enum ScaleCornerButton {
    AutoManual,
    Mode,
    NoButton,
}

/// What the split layout finds under the pointer.
#[derive(Debug, Clone, Copy, PartialEq, Eq)]
pub enum SplitTarget {
    /// The chart area is not split.
    NotSplit,
    /// A separator between two leaves.
    Separator,
    /// The scale corner of a leaf.
    ScaleCorner(u64, ScaleCornerButton),
    /// The chart, price scale or time scale of a leaf.
    Leaf(u64),
    /// No leaf.
    Outside,
}

/// The answers of the pixel tests for a left click.
#[derive(Debug, Clone, Copy, PartialEq, Eq)]
pub struct ClickFacts {
    /// A registered widget (modal, toolbar, dropdown, panel) took the click.
    pub widget_hit: bool,
    /// The click lies in a free-slot leaf that shows an order-flow panel.
    pub slot_panel_hit: bool,
    /// The click lies inside a modal layer.
    pub in_modal_layer: bool,
    pub split: SplitTarget,
    /// A click-placed drawing tool is active (it places points on press).
    pub click_drawing_tool: bool,
}

/// What a left click does after the overlays are (or are not) closed.
#[derive(Debug, Clone, Copy, PartialEq, Eq)]
pub enum ClickAction {
    /// Hand the click to the widget's handler.
    DispatchWidget,
    /// The slot panel takes the click; nothing else happens.
    SlotPanel,
    /// Close the topmost modal layer only.
    CloseTopmostLayer,
    /// Press a scale-corner button of the (now active) leaf.
    ScaleCorner(ScaleCornerButton),
    /// Handle the click on the active chart's canvas.
    Canvas,
    NoAction,
}

/// The decision for a left click.
#[derive(Debug, Clone, Copy, PartialEq, Eq)]
pub struct ClickOutcome {
    /// Close the transient overlays (dropdowns, pickers) first.
    pub close_overlays: bool,
    /// Make this leaf the active one.
    pub activate_leaf: Option<u64>,
    pub action: ClickAction,
}

/// A widget takes the click first, then a slot panel, then a modal layer
/// (which closes); otherwise the transient overlays close and the split
/// layout routes the click: a separator ends it, a scale corner presses its
/// button in its leaf, a leaf becomes active and, unless a click-placed
/// drawing tool is active, its canvas takes the click.
pub open spec fn click_outcome_of(f: ClickFacts) -> ClickOutcome {
    if f.widget_hit {
        ClickOutcome { close_overlays: false, activate_leaf: None, action: ClickAction::DispatchWidget }
    } else if f.slot_panel_hit {
        ClickOutcome { close_overlays: false, activate_leaf: None, action: ClickAction::SlotPanel }
    } else if f.in_modal_layer {
        ClickOutcome { close_overlays: false, activate_leaf: None, action: ClickAction::CloseTopmostLayer }
    } else {
        match f.split {
            SplitTarget::Separator | SplitTarget::Outside => ClickOutcome {
                close_overlays: true,
                activate_leaf: None,
                action: ClickAction::NoAction,
            },
            SplitTarget::ScaleCorner(l, b) => ClickOutcome {
                close_overlays: true,
                activate_leaf: Some(l),
                action: ClickAction::ScaleCorner(b),
            },
            SplitTarget::Leaf(l) => ClickOutcome {
                close_overlays: true,
                activate_leaf: Some(l),
                action: if f.click_drawing_tool { ClickAction::NoAction } else { ClickAction::Canvas },
            },
            SplitTarget::NotSplit => ClickOutcome {
                close_overlays: true,
                activate_leaf: None,
                action: if f.click_drawing_tool { ClickAction::NoAction } else { ClickAction::Canvas },
            },
        }
    }
}

/// Decide what a left click does.
pub fn click_outcome(f: ClickFacts) -> (r: ClickOutcome)
    ensures
        r == click_outcome_of(f),
{
    if f.widget_hit {
        return ClickOutcome { close_overlays: false, activate_leaf: None, action: ClickAction::DispatchWidget };
    }
    if f.slot_panel_hit {
        return ClickOutcome { close_overlays: false, activate_leaf: None, action: ClickAction::SlotPanel };
    }
    if f.in_modal_layer {
        return ClickOutcome {
            close_overlays: false,
            activate_leaf: None,
            action: ClickAction::CloseTopmostLayer,
        };
    }
    let canvas = if f.click_drawing_tool {
        ClickAction::NoAction
    } else {
        ClickAction::Canvas
    };
    match f.split {
        SplitTarget::Separator | SplitTarget::Outside => ClickOutcome {
            close_overlays: true,
            activate_leaf: None,
            action: ClickAction::NoAction,
        },
        SplitTarget::ScaleCorner(l, b) => ClickOutcome {
            close_overlays: true,
            activate_leaf: Some(l),
            action: ClickAction::ScaleCorner(b),
        },
        SplitTarget::Leaf(l) => ClickOutcome { close_overlays: true, activate_leaf: Some(l), action: canvas },
        SplitTarget::NotSplit => ClickOutcome { close_overlays: true, activate_leaf: None, action: canvas },
    }
}

/// What a right click finds in the active window.
#[derive(Debug, Clone, Copy, PartialEq, Eq)]
pub enum RightClickHit {
    Primitive(usize),
    Indicator(u64),
    Background,
    Miss,
}

/// What a right click opens.
#[derive(Debug, Clone, Copy, PartialEq, Eq)]
pub enum RightClickAction {
    /// Select the primitive and open its context menu.
    PrimitiveMenu(usize),
    /// Select the indicator and open its settings.
    IndicatorSettings(u64),
    /// Open the chart background's context menu.
    BackgroundMenu,
    NoAction,
}

/// The decision for a right click.
#[derive(Debug, Clone, Copy, PartialEq, Eq)]
pub struct RightClickOutcome {
    /// Close the open context menu and toolbar dropdown.
    pub close_menus: bool,
    /// Make the leaf under the pointer active (and drop the cached layout).
    pub activate_leaf: Option<u64>,
    pub action: RightClickAction,
}

/// While any modal is open a right click does nothing. Otherwise the open
/// menus close, the leaf under the pointer becomes active, and what the
/// click hits in it decides the menu.
pub open spec fn right_click_outcome_of(modal_open: bool, split: SplitTarget, hit: RightClickHit) -> RightClickOutcome {
    if modal_open {
        RightClickOutcome { close_menus: false, activate_leaf: None, action: RightClickAction::NoAction }
    } else {
        RightClickOutcome {
            close_menus: true,
            activate_leaf: match split {
                SplitTarget::ScaleCorner(l, _) => Some(l),
                SplitTarget::Leaf(l) => Some(l),
                _ => None,
            },
            action: match hit {
                RightClickHit::Primitive(i) => RightClickAction::PrimitiveMenu(i),
                RightClickHit::Indicator(id) => RightClickAction::IndicatorSettings(id),
                RightClickHit::Background => RightClickAction::BackgroundMenu,
                RightClickHit::Miss => RightClickAction::NoAction,
            },
        }
    }
}

/// Decide what a right click does; `hit` is the hit test in the window
/// that the click makes active.
pub fn right_click_outcome(modal_open: bool, split: SplitTarget, hit: RightClickHit) -> (r: RightClickOutcome)
    ensures
        r == right_click_outcome_of(modal_open, split, hit),
{
    if modal_open {
        return RightClickOutcome { close_menus: false, activate_leaf: None, action: RightClickAction::NoAction };
    }
    let activate_leaf = match split {
        SplitTarget::ScaleCorner(l, _) => Some(l),
        SplitTarget::Leaf(l) => Some(l),
        _ => None,
    };
    let action = match hit {
        RightClickHit::Primitive(i) => RightClickAction::PrimitiveMenu(i),
        RightClickHit::Indicator(id) => RightClickAction::IndicatorSettings(id),
        RightClickHit::Background => RightClickAction::BackgroundMenu,
        RightClickHit::Miss => RightClickAction::NoAction,
    };
    RightClickOutcome { close_menus: true, activate_leaf, action }
}

/// A drawing is in progress in some window: with a split layout, in any
/// leaf's window; otherwise in the active window.
pub open spec fn drawing_in_progress(split: bool, active_drawing: bool, leaves_drawing: Seq<bool>) -> bool {
    if split {
        exists|i: int| 0 <= i < leaves_drawing.len() && leaves_drawing[i]
    } else {
        active_drawing
    }
}

/// Whether the pointer leaving the window hides the crosshair: it does
/// unless a drawing is in progress, whose preview keeps it.
pub fn leave_hides_crosshair(split: bool, active_drawing: bool, leaves_drawing: &Vec<bool>) -> (r: bool)
    ensures
        r == !drawing_in_progress(split, active_drawing, leaves_drawing@),
{
    if !split {
        return !active_drawing;
    }
    let mut i: usize = 0;
    while i < leaves_drawing.len()
        invariant
            i <= leaves_drawing@.len(),
            split,
            forall|j: int| 0 <= j < i ==> !leaves_drawing@[j],
        decreases leaves_drawing@.len() - i,
    {
        if leaves_drawing[i] {
            assert(leaves_drawing@[i as int]);
            return false;
        }
        i = i + 1;
    }
    true
}

/// A click inside an open modal never reaches the chart: with a modal
/// layer under the pointer and no widget or panel taking the click, only
/// the topmost layer closes, and a right click with a modal open changes
/// nothing.
pub proof fn law_modal_shields_chart(f: ClickFacts, split: SplitTarget, hit: RightClickHit)
    ensures
        f.in_modal_layer && !f.widget_hit && !f.slot_panel_hit ==> click_outcome_of(f)
            == (ClickOutcome {
            close_overlays: false,
            activate_leaf: None,
            action: ClickAction::CloseTopmostLayer,
        }),
        right_click_outcome_of(true, split, hit) == (RightClickOutcome {
            close_menus: false,
            activate_leaf: None,
            action: RightClickAction::NoAction,
        }),
        click_outcome_of(f).action == ClickAction::Canvas ==> !f.click_drawing_tool && !f.widget_hit,
{
}

/// Without a modal open, a right click closes the open menus, makes the
/// leaf under the pointer active exactly as a left click on the chart
/// would (the leaf of a chart or scale corner, none over a separator,
/// outside the leaves or without a split), and opens what the click hit:
/// the hit primitive's menu, the hit indicator's settings, the background
/// menu, or nothing on a miss.
pub proof fn law_right_click_activates_leaf_under_pointer(split: SplitTarget, hit: RightClickHit, l: u64)
    ensures
        right_click_outcome_of(false, SplitTarget::Leaf(l), hit).activate_leaf == Some(l),
        right_click_outcome_of(false, split, hit).close_menus,
        right_click_outcome_of(false, split, hit).activate_leaf == click_outcome_of(
            ClickFacts {
                widget_hit: false,
                slot_panel_hit: false,
                in_modal_layer: false,
                split,
                click_drawing_tool: false,
            },
        ).activate_leaf,
        hit matches RightClickHit::Primitive(i) ==> right_click_outcome_of(false, split, hit).action
            == RightClickAction::PrimitiveMenu(i),
        hit matches RightClickHit::Indicator(id) ==> right_click_outcome_of(false, split, hit).action
            == RightClickAction::IndicatorSettings(id),
        hit is Background ==> right_click_outcome_of(false, split, hit).action
            == RightClickAction::BackgroundMenu,
        hit is Miss ==> right_click_outcome_of(false, split, hit).action == RightClickAction::NoAction,
{
}

/// A left click on a leaf's chart makes that leaf active, and on its scale
/// corner also presses the corner's button there.
pub proof fn law_left_click_activates_leaf(f: ClickFacts, l: u64, b: ScaleCornerButton)
    requires
        !f.widget_hit,
        !f.slot_panel_hit,
        !f.in_modal_layer,
    ensures
        click_outcome_of(ClickFacts { split: SplitTarget::Leaf(l), ..f }).activate_leaf == Some(l),
        click_outcome_of(ClickFacts { split: SplitTarget::ScaleCorner(l, b), ..f }) == (ClickOutcome {
            close_overlays: true,
            activate_leaf: Some(l),
            action: ClickAction::ScaleCorner(b),
        }),
        click_outcome_of(f).close_overlays,
{
}

} // verus!
