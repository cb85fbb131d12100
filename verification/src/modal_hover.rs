//! The hover highlight inside the settings modals, the chart browser and the
//! watchlist modal: which item of which modal the hovered widget id names.

use vstd::prelude::*;
use crate::strings::{chars_of, strip_prefix_of, strip_prefix_chars};

verus! {

/// The modal item under the pointer.
#[derive(Debug, Clone, PartialEq, Eq)]
pub enum ModalHover {
    PrimitiveSettingsItem(String),
    /// An item or tab of the chart settings.
    ChartSettingsItem(String),
    ChartSettingsFooter(String),
    /// An item or tab of the indicator settings.
    IndicatorSettingsItem(String),
    IndicatorSettingsFooter(String),
    UserSettingsItem(String),
    ChartBrowserPreset(String),
    WatchlistModalItem(String),
    /// An item of the Tags & Tabs or overlay settings modal, by its whole id.
    OverlaySettingsItem(String),
    /// Nothing in a modal is hovered.
    Nothing,
}

/// [`ModalHover`] with its texts as character sequences.
pub enum ModalHoverView {
    PrimitiveSettingsItem(Seq<char>),
    ChartSettingsItem(Seq<char>),
    ChartSettingsFooter(Seq<char>),
    IndicatorSettingsItem(Seq<char>),
    IndicatorSettingsFooter(Seq<char>),
    UserSettingsItem(Seq<char>),
    ChartBrowserPreset(Seq<char>),
    WatchlistModalItem(Seq<char>),
    OverlaySettingsItem(Seq<char>),
    Nothing,
}

impl View for ModalHover {
    type V = ModalHoverView;

    open spec fn view(&self) -> ModalHoverView {
        match self {
            ModalHover::PrimitiveSettingsItem(s) => ModalHoverView::PrimitiveSettingsItem(s@),
            ModalHover::ChartSettingsItem(s) => ModalHoverView::ChartSettingsItem(s@),
            ModalHover::ChartSettingsFooter(s) => ModalHoverView::ChartSettingsFooter(s@),
            ModalHover::IndicatorSettingsItem(s) => ModalHoverView::IndicatorSettingsItem(s@),
            ModalHover::IndicatorSettingsFooter(s) => ModalHoverView::IndicatorSettingsFooter(s@),
            ModalHover::UserSettingsItem(s) => ModalHoverView::UserSettingsItem(s@),
            ModalHover::ChartBrowserPreset(s) => ModalHoverView::ChartBrowserPreset(s@),
            ModalHover::WatchlistModalItem(s) => ModalHoverView::WatchlistModalItem(s@),
            ModalHover::OverlaySettingsItem(s) => ModalHoverView::OverlaySettingsItem(s@),
            ModalHover::Nothing => ModalHoverView::Nothing,
        }
    }
}

/// The position of the first `:` in `s`.
pub open spec fn first_colon(s: Seq<char>) -> Option<int>
    decreases s.len(),
{
    if s.len() == 0 {
        None
    } else if s[0] == ':' {
        Some(0)
    } else {
        match first_colon(s.drop_first()) {
            Some(k) => Some(k + 1),
            None => None,
        }
    }
}

/// The chart-settings item a hovered local id names: for a dropdown option
/// `dropdown_option:{field}:{item}` the item, otherwise the local id itself.
pub open spec fn chart_settings_item_of(local: Seq<char>) -> Seq<char> {
    match strip_prefix_of(local, "dropdown_option:"@) {
        Some(rest) => match first_colon(rest) {
            Some(k) => rest.skip(k + 1),
            None => local,
        },
        None => local,
    }
}

/// The indicator-settings item a hovered local id names: without its
/// `input:` or `color:` prefix.
pub open spec fn indicator_settings_item_of(local: Seq<char>) -> Seq<char> {
    match strip_prefix_of(local, "input:"@) {
        Some(r) => r,
        None => match strip_prefix_of(local, "color:"@) {
            Some(r) => r,
            None => local,
        },
    }
}

/// What the hovered widget `s` highlights in a modal, prefixes tried in
/// order.
pub open spec fn modal_hover_of(s: Seq<char>) -> ModalHoverView {
    if let Some(l) = strip_prefix_of(s, "prim_settings:item:"@) {
        ModalHoverView::PrimitiveSettingsItem(l)
    } else if let Some(l) = strip_prefix_of(s, "chart_settings:item:"@) {
        ModalHoverView::ChartSettingsItem(chart_settings_item_of(l))
    } else if let Some(l) = strip_prefix_of(s, "chart_settings:tab:"@) {
        ModalHoverView::ChartSettingsItem(l)
    } else if let Some(l) = strip_prefix_of(s, "chart_settings:footer:"@) {
        ModalHoverView::ChartSettingsFooter(l)
    } else if let Some(l) = strip_prefix_of(s, "ind_settings:item:"@) {
        ModalHoverView::IndicatorSettingsItem(indicator_settings_item_of(l))
    } else if let Some(l) = strip_prefix_of(s, "ind_settings:tab:"@) {
        ModalHoverView::IndicatorSettingsItem(l)
    } else if let Some(l) = strip_prefix_of(s, "ind_settings:footer:"@) {
        ModalHoverView::IndicatorSettingsFooter(l)
    } else if let Some(l) = strip_prefix_of(s, "user_settings:"@) {
        ModalHoverView::UserSettingsItem(l)
    } else if let Some(l) = strip_prefix_of(s, "chart_browser:item:"@) {
        ModalHoverView::ChartBrowserPreset(l)
    } else if let Some(l) = strip_prefix_of(s, "wl_modal:item:"@) {
        ModalHoverView::WatchlistModalItem(l)
    } else if strip_prefix_of(s, "tags_tabs:"@) is Some || strip_prefix_of(s, "overlay_settings:"@) is Some {
        ModalHoverView::OverlaySettingsItem(s)
    } else {
        ModalHoverView::Nothing
    }
}

/// The position of the first `:` in `v`.
fn first_colon_in(v: &Vec<char>) -> (r: Option<usize>)
    ensures
        match r {
            Some(k) => first_colon(v@) == Some(k as int) && k < v@.len(),
            None => first_colon(v@) is None,
        },
{
    let mut i: usize = 0;
    assert(v@.skip(0) =~= v@);
    while i < v.len()
        invariant
            i <= v@.len(),
            first_colon(v@) == match first_colon(v@.skip(i as int)) {
                Some(k) => Some(k + i),
                None => None,
            },
        decreases v@.len() - i,
    {
        assert(v@.skip(i as int)[0] == v@[i as int]);
        if v[i] == ':' {
            return Some(i);
        }
        assert(v@.skip(i as int).drop_first() =~= v@.skip(i + 1));
        i = i + 1;
    }
    assert(v@.skip(i as int) =~= Seq::<char>::empty());
    None
}

/// The chart-settings item of a hovered local id.
fn chart_settings_item(local: String) -> (r: String)
    ensures
        r@ == chart_settings_item_of(local@),
{
    let v = chars_of(local.as_str());
    match strip_prefix_chars(&v, "dropdown_option:") {
        Some(rest) => {
            let rv = chars_of(rest.as_str());
            match first_colon_in(&rv) {
                Some(k) => {
                    let r = crate::strings::string_from_range(&rv, k + 1, rv.len());
                    assert(rv@.subrange(k + 1, rv@.len() as int) =~= rv@.skip(k + 1));
                    r
                },
                None => local,
            }
        },
        None => local,
    }
}

/// The indicator-settings item of a hovered local id.
fn indicator_settings_item(local: String) -> (r: String)
    ensures
        r@ == indicator_settings_item_of(local@),
{
    let v = chars_of(local.as_str());
    match strip_prefix_chars(&v, "input:") {
        Some(r) => r,
        None => match strip_prefix_chars(&v, "color:") {
            Some(r) => r,
            None => local,
        },
    }
}

/// Decide what the hovered widget `id` highlights in a modal.
pub fn modal_hover(id: &str) -> (r: ModalHover)
    ensures
        r@ == modal_hover_of(id@),
{
    let v = chars_of(id);
    if let Some(l) = strip_prefix_chars(&v, "prim_settings:item:") {
        ModalHover::PrimitiveSettingsItem(l)
    } else if let Some(l) = strip_prefix_chars(&v, "chart_settings:item:") {
        ModalHover::ChartSettingsItem(chart_settings_item(l))
    } else if let Some(l) = strip_prefix_chars(&v, "chart_settings:tab:") {
        ModalHover::ChartSettingsItem(l)
    } else if let Some(l) = strip_prefix_chars(&v, "chart_settings:footer:") {
        ModalHover::ChartSettingsFooter(l)
    } else if let Some(l) = strip_prefix_chars(&v, "ind_settings:item:") {
        ModalHover::IndicatorSettingsItem(indicator_settings_item(l))
    } else if let Some(l) = strip_prefix_chars(&v, "ind_settings:tab:") {
        ModalHover::IndicatorSettingsItem(l)
    } else if let Some(l) = strip_prefix_chars(&v, "ind_settings:footer:") {
        ModalHover::IndicatorSettingsFooter(l)
    } else if let Some(l) = strip_prefix_chars(&v, "user_settings:") {
        ModalHover::UserSettingsItem(l)
    } else if let Some(l) = strip_prefix_chars(&v, "chart_browser:item:") {
        ModalHover::ChartBrowserPreset(l)
    } else if let Some(l) = strip_prefix_chars(&v, "wl_modal:item:") {
        ModalHover::WatchlistModalItem(l)
    } else if strip_prefix_chars(&v, "tags_tabs:").is_some() || strip_prefix_chars(
        &v,
        "overlay_settings:",
    ).is_some() {
        let r = crate::strings::string_from_range(&v, 0, v.len());
        assert(v@.subrange(0, v@.len() as int) =~= v@);
        ModalHover::OverlaySettingsItem(r)
    } else {
        ModalHover::Nothing
    }
}

} // verus!
