//! The widget-id grammar used to route pointer and key events: the render
//! pass registers widgets under ids such as `agent:leaf:7:focus_content` or
//! `slot:1:sep:0`, and the input handlers recover the target from the id.

use vstd::prelude::*;
use crate::number::{
    spec_parse_u64, spec_parse_usize, parse_u64_in, parse_usize_in, is_canonical_decimal,
    is_canonical_decimal_in, decimal_string, lemma_decimal_string, lemma_parse_decimal_string,
};
use crate::strings::{chars_of, string_from_range};

verus! {

/// Number of free order-flow slots in the right sidebar.
pub const FREE_SLOT_COUNT: usize = 4;

/// `p` occurs in `s` at position `i`.
pub open spec fn occurs_at(s: Seq<char>, p: Seq<char>, i: int) -> bool {
    0 <= i && i + p.len() <= s.len() && s.subrange(i, i + p.len()) == p
}

/// `s` starts with `p`.
pub open spec fn starts_with(s: Seq<char>, p: Seq<char>) -> bool {
    occurs_at(s, p, 0)
}

/// `s` ends with `p`, and the suffix does not overlap the first `from` characters.
pub open spec fn ends_with_after(s: Seq<char>, from: int, p: Seq<char>) -> bool {
    from + p.len() <= s.len() && occurs_at(s, p, s.len() - p.len())
}

/// The first position at or after `i` where `p` occurs in `s`.
pub open spec fn find_from(s: Seq<char>, p: Seq<char>, i: int) -> Option<int>
    decreases s.len() + 1 - i,
{
    if i < 0 || i + p.len() > s.len() {
        None
    } else if s.subrange(i, i + p.len()) == p {
        Some(i)
    } else {
        find_from(s, p, i + 1)
    }
}

/// Whether `p` occurs in `s` at position `i`.
pub(crate) fn matches_at(s: &Vec<char>, i: usize, p: &Vec<char>) -> (r: bool)
    ensures
        r == occurs_at(s@, p@, i as int),
{
    if p.len() > s.len() || i > s.len() - p.len() {
        return false;
    }
    assert(s@.len() == s.len());
    let mut k: usize = 0;
    while k < p.len()
        invariant
            s@.len() <= usize::MAX,
            i + p@.len() <= s@.len(),
            k <= p@.len(),
            forall|j: int| 0 <= j < k ==> s@[i + j] == p@[j],
        decreases p@.len() - k,
    {
        if s[i + k] != p[k] {
            assert(s@.subrange(i as int, i + p@.len())[k as int] != p@[k as int]);
            return false;
        }
        k = k + 1;
    }
    assert(s@.subrange(i as int, i + p@.len()) =~= p@);
    true
}

/// The first position at or after `i` where `p` occurs in `s`.
fn find(s: &Vec<char>, p: &Vec<char>, i: usize) -> (r: Option<usize>)
    ensures
        match r {
            Some(k) => find_from(s@, p@, i as int) == Some(k as int),
            None => find_from(s@, p@, i as int) is None,
        },
    decreases s@.len() + 1 - i,
{
    if p.len() > s.len() || i > s.len() - p.len() {
        return None;
    }
    if matches_at(s, i, p) {
        Some(i)
    } else {
        assert(p@.len() > 0) by {
            if p@.len() == 0 {
                assert(s@.subrange(i as int, i as int) =~= p@);
            }
        }
        assert(s@.len() == s.len());
        find(s, p, i + 1)
    }
}

/// A found position is at or after the start and `p` occurs there.
pub proof fn lemma_find_from(s: Seq<char>, p: Seq<char>, i: int)
    ensures
        find_from(s, p, i) matches Some(k) ==> i <= k && occurs_at(s, p, k),
    decreases s.len() + 1 - i,
{
    if !(i < 0 || i + p.len() > s.len()) && s.subrange(i, i + p.len()) != p {
        lemma_find_from(s, p, i + 1);
    }
}

/// Whether `s[lo..hi]` equals `p`.
fn range_eq(s: &Vec<char>, lo: usize, hi: usize, p: &Vec<char>) -> (r: bool)
    requires
        lo <= hi <= s@.len(),
    ensures
        r == (s@.subrange(lo as int, hi as int) == p@),
{
    if hi - lo != p.len() {
        return false;
    }
    matches_at(s, lo, p)
}

// ---------------------------------------------------------------------------
// Agent panel
// ---------------------------------------------------------------------------

/// The leaf of an `agent:leaf:{leaf}:focus_content` id.
pub open spec fn spec_agent_leaf_focus(s: Seq<char>) -> Option<u64> {
    let p = "agent:leaf:"@;
    let x = ":focus_content"@;
    if starts_with(s, p) && ends_with_after(s, p.len() as int, x) {
        spec_parse_u64(s.subrange(p.len() as int, s.len() - x.len()))
    } else {
        None
    }
}

/// Parse an `agent:leaf:{leaf}:focus_content` id into its leaf id.
pub fn agent_leaf_focus(id: &str) -> (r: Option<u64>)
    ensures
        r == spec_agent_leaf_focus(id@),
{
    let s = chars_of(id);
    let p = chars_of("agent:leaf:");
    let x = chars_of(":focus_content");
    if !matches_at(&s, 0, &p) {
        return None;
    }
    if x.len() > s.len() || p.len() > s.len() - x.len() || !matches_at(
        &s,
        s.len() - x.len(),
        &x,
    ) {
        return None;
    }
    parse_u64_in(&s, p.len(), s.len() - x.len())
}

/// The separator index of an `agent:sep:{idx}` id.
pub open spec fn spec_agent_separator(s: Seq<char>) -> Option<usize> {
    let p = "agent:sep:"@;
    if starts_with(s, p) {
        spec_parse_usize(s.skip(p.len() as int))
    } else {
        None
    }
}

/// Parse an `agent:sep:{idx}` id into the separator index.
pub fn agent_separator(id: &str) -> (r: Option<usize>)
    ensures
        r == spec_agent_separator(id@),
{
    let s = chars_of(id);
    let p = chars_of("agent:sep:");
    if !matches_at(&s, 0, &p) {
        return None;
    }
    assert(s@.subrange(p@.len() as int, s@.len() as int) =~= s@.skip(p@.len() as int));
    parse_usize_in(&s, p.len(), s.len())
}

// ---------------------------------------------------------------------------
// Free order-flow slots
// ---------------------------------------------------------------------------

/// `(slot, separator)` of a `slot:{slot}:sep:{sep}` id, for any slot
/// number; the text between `slot:` and the first `:sep:` is the slot.
pub open spec fn spec_slot_sep_indices(s: Seq<char>) -> Option<(usize, usize)> {
    let p = "slot:"@;
    let m = ":sep:"@;
    if starts_with(s, p) {
        match find_from(s, m, p.len() as int) {
            Some(k) => match (
                spec_parse_usize(s.subrange(p.len() as int, k)),
                spec_parse_usize(s.skip(k + m.len())),
            ) {
                (Some(a), Some(b)) => Some((a, b)),
                _ => None,
            },
            None => None,
        }
    } else {
        None
    }
}

/// `(slot, separator)` of a `slot:{slot}:sep:{sep}` id of one of the free
/// slots.
pub open spec fn spec_slot_separator(s: Seq<char>) -> Option<(usize, usize)> {
    match spec_slot_sep_indices(s) {
        Some((a, b)) => if a < FREE_SLOT_COUNT {
            Some((a, b))
        } else {
            None
        },
        None => None,
    }
}

/// Parse a `slot:{slot}:sep:{sep}` id, whatever the slot number.
pub fn slot_sep_indices(id: &str) -> (r: Option<(usize, usize)>)
    ensures
        r == spec_slot_sep_indices(id@),
{
    let s = chars_of(id);
    let p = chars_of("slot:");
    let m = chars_of(":sep:");
    if !matches_at(&s, 0, &p) {
        return None;
    }
    proof {
        lemma_find_from(s@, m@, p@.len() as int);
    }
    match find(&s, &m, p.len()) {
        Some(k) => {
            assert(k + m@.len() <= s@.len());
            assert(s@.subrange(k + m@.len(), s@.len() as int) =~= s@.skip(k + m@.len()));
            let a = parse_usize_in(&s, p.len(), k);
            let b = parse_usize_in(&s, k + m.len(), s.len());
            match (a, b) {
                (Some(a), Some(b)) => Some((a, b)),
                _ => None,
            }
        },
        None => None,
    }
}

/// Parse a `slot:{slot}:sep:{sep}` id of one of the free slots.
pub fn slot_separator(id: &str) -> (r: Option<(usize, usize)>)
    ensures
        r == spec_slot_separator(id@),
{
    match slot_sep_indices(id) {
        Some((a, b)) => {
            if a < FREE_SLOT_COUNT {
                Some((a, b))
            } else {
                None
            }
        },
        None => None,
    }
}

/// Which widget of a free-slot leaf an id names.
#[derive(Debug, Clone, Copy, PartialEq, Eq)]
pub enum SlotLeafPart {
    /// `...:dom:body`, the depth-of-market body.
    DomBody,
    /// `...:focus_content`, the content area of any other panel.
    FocusContent,
}

/// `(slot, leaf, part)` of a `slot:{slot}:leaf:{leaf}:dom:body` or
/// `slot:{slot}:leaf:{leaf}:focus_content` id.
pub open spec fn spec_slot_leaf_widget(s: Seq<char>) -> Option<(usize, u64, SlotLeafPart)> {
    let p = "slot:"@;
    let m = ":leaf:"@;
    let dom = ":dom:body"@;
    let focus = ":focus_content"@;
    if starts_with(s, p) {
        match find_from(s, m, p.len() as int) {
            Some(k) => match spec_parse_usize(s.subrange(p.len() as int, k)) {
                Some(slot) => if slot >= FREE_SLOT_COUNT {
                    None
                } else if ends_with_after(s, k + m.len(), dom) {
                    match spec_parse_u64(s.subrange(k + m.len(), s.len() - dom.len())) {
                        Some(leaf) => Some((slot, leaf, SlotLeafPart::DomBody)),
                        None => None,
                    }
                } else if ends_with_after(s, k + m.len(), focus) {
                    match spec_parse_u64(s.subrange(k + m.len(), s.len() - focus.len())) {
                        Some(leaf) => Some((slot, leaf, SlotLeafPart::FocusContent)),
                        None => None,
                    }
                } else {
                    None
                },
                None => None,
            },
            None => None,
        }
    } else {
        None
    }
}

/// Parse a free-slot leaf widget id into `(slot, leaf, part)`.
pub fn slot_leaf_widget(id: &str) -> (r: Option<(usize, u64, SlotLeafPart)>)
    ensures
        r == spec_slot_leaf_widget(id@),
{
    let s = chars_of(id);
    let p = chars_of("slot:");
    let m = chars_of(":leaf:");
    let dom = chars_of(":dom:body");
    let focus = chars_of(":focus_content");
    if !matches_at(&s, 0, &p) {
        return None;
    }
    proof {
        lemma_find_from(s@, m@, p@.len() as int);
    }
    let k = match find(&s, &m, p.len()) {
        Some(k) => k,
        None => return None,
    };
    let slot = match parse_usize_in(&s, p.len(), k) {
        Some(v) => v,
        None => return None,
    };
    if slot >= FREE_SLOT_COUNT {
        return None;
    }
    let after = k + m.len();
    if dom.len() <= s.len() && after <= s.len() - dom.len() && matches_at(
        &s,
        s.len() - dom.len(),
        &dom,
    ) {
        match parse_u64_in(&s, after, s.len() - dom.len()) {
            Some(leaf) => Some((slot, leaf, SlotLeafPart::DomBody)),
            None => None,
        }
    } else if focus.len() <= s.len() && after <= s.len() - focus.len() && matches_at(
        &s,
        s.len() - focus.len(),
        &focus,
    ) {
        match parse_u64_in(&s, after, s.len() - focus.len()) {
            Some(leaf) => Some((slot, leaf, SlotLeafPart::FocusContent)),
            None => None,
        }
    } else {
        None
    }
}

// ---------------------------------------------------------------------------
// Watchlist
// ---------------------------------------------------------------------------

/// The zero-based separator index of a `watchlist_sep_{n}` id, whose `n`
/// counts from one.
pub open spec fn spec_watchlist_separator(s: Seq<char>) -> Option<usize> {
    let p = "watchlist_sep_"@;
    if starts_with(s, p) {
        match spec_parse_usize(s.skip(p.len() as int)) {
            Some(n) => Some(if n == 0 {
                0usize
            } else {
                (n - 1) as usize
            }),
            None => None,
        }
    } else {
        None
    }
}

/// Parse a `watchlist_sep_{n}` id into the zero-based separator index.
pub fn watchlist_separator(id: &str) -> (r: Option<usize>)
    ensures
        r == spec_watchlist_separator(id@),
{
    let s = chars_of(id);
    let p = chars_of("watchlist_sep_");
    if !matches_at(&s, 0, &p) {
        return None;
    }
    assert(s@.subrange(p@.len() as int, s@.len() as int) =~= s@.skip(p@.len() as int));
    match parse_usize_in(&s, p.len(), s.len()) {
        Some(n) => Some(n.saturating_sub(1)),
        None => None,
    }
}

/// The row of a plain `watchlist_{row}` id: the row must be written exactly
/// as the number prints, so ids such as `watchlist_delete_3` or
/// `watchlist_03` name no row.
pub open spec fn spec_watchlist_row(s: Seq<char>) -> Option<usize> {
    let p = "watchlist_"@;
    if starts_with(s, p) && is_canonical_decimal(s.skip(p.len() as int)) {
        spec_parse_usize(s.skip(p.len() as int))
    } else {
        None
    }
}

/// Parse a plain `watchlist_{row}` id into the row index.
pub fn watchlist_row(id: &str) -> (r: Option<usize>)
    ensures
        r == spec_watchlist_row(id@),
{
    let s = chars_of(id);
    let p = chars_of("watchlist_");
    if !matches_at(&s, 0, &p) {
        return None;
    }
    assert(s@.subrange(p@.len() as int, s@.len() as int) =~= s@.skip(p@.len() as int));
    if !is_canonical_decimal_in(&s, p.len(), s.len()) {
        return None;
    }
    parse_usize_in(&s, p.len(), s.len())
}

// ---------------------------------------------------------------------------
// Toolbars
// ---------------------------------------------------------------------------

/// Ids of the toolbar and dropdown widgets, which receive double clicks.
pub open spec fn spec_is_toolbar_widget(s: Seq<char>) -> bool {
    ||| starts_with(s, "toolbar:"@)
    ||| starts_with(s, "dtb:"@)
    ||| starts_with(s, "csb:"@)
    ||| starts_with(s, "btb:"@)
    ||| starts_with(s, "rtb:"@)
    ||| starts_with(s, "dropdown:"@)
}

/// Whether `id` names a toolbar or dropdown widget.
pub fn is_toolbar_widget(id: &str) -> (r: bool)
    ensures
        r == spec_is_toolbar_widget(id@),
{
    let s = chars_of(id);
    matches_at(&s, 0, &chars_of("toolbar:")) || matches_at(&s, 0, &chars_of("dtb:"))
        || matches_at(&s, 0, &chars_of("csb:")) || matches_at(&s, 0, &chars_of("btb:"))
        || matches_at(&s, 0, &chars_of("rtb:")) || matches_at(&s, 0, &chars_of("dropdown:"))
}

// ---------------------------------------------------------------------------
// Modal headers and scrollbar handles (drag starts)
// ---------------------------------------------------------------------------

/// The modal whose header starts a drag.
#[derive(Debug, Clone, Copy, PartialEq, Eq)]
pub enum ModalHeader {
    PrimitiveSettings,
    ChartSettings,
    UserSettings,
    OverlaySettings,
    TagsTabs,
    IndicatorSettings,
    AlertSettings,
    CompareSettings,
    PresetName,
    ChartBrowser,
    WatchlistGroupName,
    WatchlistModal,
    SearchModal,
}

/// The modal of a `{name}:header` id.
pub open spec fn spec_modal_header(s: Seq<char>) -> Option<ModalHeader> {
    let x = ":header"@;
    if ends_with_after(s, 0, x) {
        let n = s.take(s.len() - x.len());
        if n == "prim_settings"@ {
            Some(ModalHeader::PrimitiveSettings)
        } else if n == "chart_settings"@ {
            Some(ModalHeader::ChartSettings)
        } else if n == "user_settings"@ {
            Some(ModalHeader::UserSettings)
        } else if n == "overlay_settings"@ {
            Some(ModalHeader::OverlaySettings)
        } else if n == "tags_tabs"@ {
            Some(ModalHeader::TagsTabs)
        } else if n == "ind_settings"@ {
            Some(ModalHeader::IndicatorSettings)
        } else if n == "alert_settings"@ || n == "alert_set"@ {
            Some(ModalHeader::AlertSettings)
        } else if n == "compare_settings"@ {
            Some(ModalHeader::CompareSettings)
        } else if n == "preset_name"@ {
            Some(ModalHeader::PresetName)
        } else if n == "chart_browser"@ {
            Some(ModalHeader::ChartBrowser)
        } else if n == "wl_group_name"@ {
            Some(ModalHeader::WatchlistGroupName)
        } else if n == "watchlist_modal"@ {
            Some(ModalHeader::WatchlistModal)
        } else if n == "search_modal"@ {
            Some(ModalHeader::SearchModal)
        } else {
            None
        }
    } else {
        None
    }
}

/// Parse a `{name}:header` id into the modal whose header it is.
pub fn modal_header(id: &str) -> (r: Option<ModalHeader>)
    ensures
        r == spec_modal_header(id@),
{
    let s = chars_of(id);
    let x = chars_of(":header");
    if x.len() > s.len() || !matches_at(&s, s.len() - x.len(), &x) {
        return None;
    }
    let e = s.len() - x.len();
    assert(s@.subrange(0, e as int) =~= s@.take(e as int));
    if range_eq(&s, 0, e, &chars_of("prim_settings")) {
        Some(ModalHeader::PrimitiveSettings)
    } else if range_eq(&s, 0, e, &chars_of("chart_settings")) {
        Some(ModalHeader::ChartSettings)
    } else if range_eq(&s, 0, e, &chars_of("user_settings")) {
        Some(ModalHeader::UserSettings)
    } else if range_eq(&s, 0, e, &chars_of("overlay_settings")) {
        Some(ModalHeader::OverlaySettings)
    } else if range_eq(&s, 0, e, &chars_of("tags_tabs")) {
        Some(ModalHeader::TagsTabs)
    } else if range_eq(&s, 0, e, &chars_of("ind_settings")) {
        Some(ModalHeader::IndicatorSettings)
    } else if range_eq(&s, 0, e, &chars_of("alert_settings")) || range_eq(
        &s,
        0,
        e,
        &chars_of("alert_set"),
    ) {
        Some(ModalHeader::AlertSettings)
    } else if range_eq(&s, 0, e, &chars_of("compare_settings")) {
        Some(ModalHeader::CompareSettings)
    } else if range_eq(&s, 0, e, &chars_of("preset_name")) {
        Some(ModalHeader::PresetName)
    } else if range_eq(&s, 0, e, &chars_of("chart_browser")) {
        Some(ModalHeader::ChartBrowser)
    } else if range_eq(&s, 0, e, &chars_of("wl_group_name")) {
        Some(ModalHeader::WatchlistGroupName)
    } else if range_eq(&s, 0, e, &chars_of("watchlist_modal")) {
        Some(ModalHeader::WatchlistModal)
    } else if range_eq(&s, 0, e, &chars_of("search_modal")) {
        Some(ModalHeader::SearchModal)
    } else {
        None
    }
}

/// The scroll state whose scrollbar handle starts a drag.
#[derive(Debug, Clone, Copy, PartialEq, Eq)]
pub enum ScrollbarHandle {
    Sidebar,
    SignalGroup(u64),
    AgentLeaf(u64),
    ChartSettings,
    TagsTabs,
    UserSettings,
    UserSettingsProfileList,
    IndicatorSettings,
    AlertSettings,
    SearchModal,
    WatchlistModal,
    ChartBrowser,
}

/// The scroll state of a `{name}:scrollbar_handle` id.
pub open spec fn spec_scrollbar_handle(s: Seq<char>) -> Option<ScrollbarHandle> {
    let x = ":scrollbar_handle"@;
    if ends_with_after(s, 0, x) {
        let n = s.take(s.len() - x.len());
        if n == "sidebar"@ {
            Some(ScrollbarHandle::Sidebar)
        } else if starts_with(n, "signal_group:"@) {
            match spec_parse_u64(n.skip("signal_group:"@.len() as int)) {
                Some(v) => Some(ScrollbarHandle::SignalGroup(v)),
                None => None,
            }
        } else if starts_with(n, "agent:leaf:"@) {
            match spec_parse_u64(n.skip("agent:leaf:"@.len() as int)) {
                Some(v) => Some(ScrollbarHandle::AgentLeaf(v)),
                None => None,
            }
        } else if n == "chart_settings"@ {
            Some(ScrollbarHandle::ChartSettings)
        } else if n == "tags_tabs"@ {
            Some(ScrollbarHandle::TagsTabs)
        } else if n == "user_settings"@ {
            Some(ScrollbarHandle::UserSettings)
        } else if n == "user_settings:profile_list"@ {
            Some(ScrollbarHandle::UserSettingsProfileList)
        } else if n == "ind_settings"@ {
            Some(ScrollbarHandle::IndicatorSettings)
        } else if n == "alert_settings"@ {
            Some(ScrollbarHandle::AlertSettings)
        } else if n == "search_modal"@ {
            Some(ScrollbarHandle::SearchModal)
        } else if n == "watchlist_modal"@ {
            Some(ScrollbarHandle::WatchlistModal)
        } else if n == "chart_browser"@ {
            Some(ScrollbarHandle::ChartBrowser)
        } else {
            None
        }
    } else {
        None
    }
}

/// Parse a `{name}:scrollbar_handle` id into the scroll state it drags.
pub fn scrollbar_handle(id: &str) -> (r: Option<ScrollbarHandle>)
    ensures
        r == spec_scrollbar_handle(id@),
{
    let s = chars_of(id);
    let x = chars_of(":scrollbar_handle");
    if x.len() > s.len() || !matches_at(&s, s.len() - x.len(), &x) {
        return None;
    }
    let e = s.len() - x.len();
    let ghost n = s@.take(e as int);
    assert(s@.subrange(0, e as int) =~= n);
    let sg = chars_of("signal_group:");
    let al = chars_of("agent:leaf:");
    if range_eq(&s, 0, e, &chars_of("sidebar")) {
        Some(ScrollbarHandle::Sidebar)
    } else if sg.len() <= e && matches_at(&s, 0, &sg) {
        assert(n.subrange(0, sg@.len() as int) =~= s@.subrange(0, sg@.len() as int));
        assert(s@.subrange(sg@.len() as int, e as int) =~= n.skip(sg@.len() as int));
        match parse_u64_in(&s, sg.len(), e) {
            Some(v) => Some(ScrollbarHandle::SignalGroup(v)),
            None => None,
        }
    } else if al.len() <= e && matches_at(&s, 0, &al) {
        assert(!starts_with(n, sg@)) by {
            if sg@.len() <= n.len() {
                assert(n.subrange(0, sg@.len() as int) =~= s@.subrange(0, sg@.len() as int));
            }
        }
        assert(n.subrange(0, al@.len() as int) =~= s@.subrange(0, al@.len() as int));
        assert(s@.subrange(al@.len() as int, e as int) =~= n.skip(al@.len() as int));
        match parse_u64_in(&s, al.len(), e) {
            Some(v) => Some(ScrollbarHandle::AgentLeaf(v)),
            None => None,
        }
    } else {
        assert(!starts_with(n, sg@)) by {
            if sg@.len() <= n.len() {
                assert(n.subrange(0, sg@.len() as int) =~= s@.subrange(0, sg@.len() as int));
            }
        }
        assert(!starts_with(n, al@)) by {
            if al@.len() <= n.len() {
                assert(n.subrange(0, al@.len() as int) =~= s@.subrange(0, al@.len() as int));
            }
        }
        if range_eq(&s, 0, e, &chars_of("chart_settings")) {
            Some(ScrollbarHandle::ChartSettings)
        } else if range_eq(&s, 0, e, &chars_of("tags_tabs")) {
            Some(ScrollbarHandle::TagsTabs)
        } else if range_eq(&s, 0, e, &chars_of("user_settings")) {
            Some(ScrollbarHandle::UserSettings)
        } else if range_eq(&s, 0, e, &chars_of("user_settings:profile_list")) {
            Some(ScrollbarHandle::UserSettingsProfileList)
        } else if range_eq(&s, 0, e, &chars_of("ind_settings")) {
            Some(ScrollbarHandle::IndicatorSettings)
        } else if range_eq(&s, 0, e, &chars_of("alert_settings")) {
            Some(ScrollbarHandle::AlertSettings)
        } else if range_eq(&s, 0, e, &chars_of("search_modal")) {
            Some(ScrollbarHandle::SearchModal)
        } else if range_eq(&s, 0, e, &chars_of("watchlist_modal")) {
            Some(ScrollbarHandle::WatchlistModal)
        } else if range_eq(&s, 0, e, &chars_of("chart_browser")) {
            Some(ScrollbarHandle::ChartBrowser)
        } else {
            None
        }
    }
}

// ---------------------------------------------------------------------------
// Timeframe-visibility fields of the settings modals
// ---------------------------------------------------------------------------

/// The timeframe index of a `tf_{n}{suffix}` field id, such as
/// `tf_3_slider`, `tf_3_min` or `tf_3_max`.
pub open spec fn spec_tf_field_index(s: Seq<char>, suffix: Seq<char>) -> Option<usize> {
    let p = "tf_"@;
    if starts_with(s, p) && ends_with_after(s, p.len() as int, suffix) {
        spec_parse_usize(s.subrange(p.len() as int, s.len() - suffix.len()))
    } else {
        None
    }
}

/// Parse the timeframe index out of a `tf_{n}{suffix}` field id.
pub fn tf_field_index(field: &str, suffix: &str) -> (r: Option<usize>)
    ensures
        r == spec_tf_field_index(field@, suffix@),
{
    let s = chars_of(field);
    let p = chars_of("tf_");
    let x = chars_of(suffix);
    if !matches_at(&s, 0, &p) {
        return None;
    }
    if x.len() > s.len() || p.len() > s.len() - x.len() || !matches_at(&s, s.len() - x.len(), &x) {
        return None;
    }
    parse_usize_in(&s, p.len(), s.len() - x.len())
}

/// The default `(min, max)` visibility range of timeframe group `n`:
/// seconds, minutes, hours, days, weeks, months.
pub open spec fn spec_tf_default_range(n: usize) -> Option<(u32, u32)> {
    if n == 1 {
        Some((1u32, 59u32))
    } else if n == 2 {
        Some((1u32, 59u32))
    } else if n == 3 {
        Some((1u32, 24u32))
    } else if n == 4 {
        Some((1u32, 366u32))
    } else if n == 5 {
        Some((1u32, 52u32))
    } else if n == 6 {
        Some((1u32, 12u32))
    } else {
        None
    }
}

/// The default visibility range of a timeframe group, if `n` names one.
pub fn tf_default_range(n: usize) -> (r: Option<(u32, u32)>)
    ensures
        r == spec_tf_default_range(n),
{
    match n {
        1 => Some((1, 59)),
        2 => Some((1, 59)),
        3 => Some((1, 24)),
        4 => Some((1, 366)),
        5 => Some((1, 52)),
        6 => Some((1, 12)),
        _ => None,
    }
}

/// One end of a timeframe range stepped by a scroll of `delta` notches and
/// kept within `lo..=hi`. The step is taken in 32-bit signed arithmetic
/// and read back as unsigned, so a step below zero wraps to a large value
/// and ends at `hi`.
pub open spec fn tf_step_of(current: u32, delta: i32, lo: u32, hi: u32) -> u32 {
    let signed = if current > 0x7fff_ffff {
        current - 0x1_0000_0000
    } else {
        current as int
    };
    let sum = signed + delta;
    let unsigned = if sum < 0 {
        sum + 0x1_0000_0000
    } else {
        sum
    };
    if unsigned < lo {
        lo
    } else if unsigned > hi {
        hi
    } else {
        unsigned as u32
    }
}

/// The signed step does not overflow.
pub open spec fn tf_step_fits(current: u32, delta: i32) -> bool {
    let signed = if current > 0x7fff_ffff {
        current - 0x1_0000_0000
    } else {
        current as int
    };
    i32::MIN <= signed + delta <= i32::MAX
}

/// Step one end of a timeframe range by a scroll of `delta` notches.
pub fn tf_step(current: u32, delta: i32, lo: u32, hi: u32) -> (r: u32)
    requires
        lo <= hi,
        tf_step_fits(current, delta),
    ensures
        r == tf_step_of(current, delta, lo, hi),
        lo <= r <= hi,
{
    let signed: i64 = if current > 0x7fff_ffff {
        current as i64 - 0x1_0000_0000
    } else {
        current as i64
    };
    let sum: i64 = signed + delta as i64;
    let unsigned: i64 = if sum < 0 {
        sum + 0x1_0000_0000
    } else {
        sum
    };
    if unsigned < lo as i64 {
        lo
    } else if unsigned > hi as i64 {
        hi
    } else {
        unsigned as u32
    }
}

/// The visibility range of timeframe group `n` after a scroll of `delta`
/// notches over its slider: `stored` (or the group's default range when
/// nothing is stored) with its lower end moved when `move_min` (the
/// pointer is nearer that handle) and its upper end otherwise, the lower
/// end kept within the group's floor and the upper end, the upper end
/// within the lower end and the group's ceiling. `None` when `n` names no
/// group.
pub open spec fn tf_scroll_range_of(
    n: usize,
    stored: Option<(u32, u32)>,
    move_min: bool,
    delta: i32,
) -> Option<(u32, u32)> {
    match spec_tf_default_range(n) {
        None => None,
        Some((lo, hi)) => {
            let (cur_min, cur_max) = match stored {
                Some(r) => r,
                None => (lo, hi),
            };
            if move_min {
                Some((tf_step_of(cur_min, delta, lo, cur_max), cur_max))
            } else {
                Some((cur_min, tf_step_of(cur_max, delta, cur_min, hi)))
            }
        },
    }
}

/// The range that scrolling would step is one the step can handle: its
/// moving end can stay within bounds, and the signed step fits.
pub open spec fn tf_scroll_admissible(
    n: usize,
    stored: Option<(u32, u32)>,
    move_min: bool,
    delta: i32,
) -> bool {
    match spec_tf_default_range(n) {
        None => true,
        Some((lo, hi)) => {
            let (cur_min, cur_max) = match stored {
                Some(r) => r,
                None => (lo, hi),
            };
            if move_min {
                lo <= cur_max && tf_step_fits(cur_min, delta)
            } else {
                cur_min <= hi && tf_step_fits(cur_max, delta)
            }
        },
    }
}

/// Step the visibility range of timeframe group `n` by a scroll over its
/// slider.
pub fn tf_scroll_range(n: usize, stored: Option<(u32, u32)>, move_min: bool, delta: i32) -> (r:
    Option<(u32, u32)>)
    requires
        tf_scroll_admissible(n, stored, move_min, delta),
    ensures
        r == tf_scroll_range_of(n, stored, move_min, delta),
{
    let (lo, hi) = match tf_default_range(n) {
        Some(b) => b,
        None => {
            return None;
        },
    };
    let (cur_min, cur_max) = match stored {
        Some(r) => r,
        None => (lo, hi),
    };
    if move_min {
        Some((tf_step(cur_min, delta, lo, cur_max), cur_max))
    } else {
        Some((cur_min, tf_step(cur_max, delta, cur_min, hi)))
    }
}

/// A scroll keeps a well-ordered range within its group's bounds ordered
/// and within those bounds.
pub proof fn law_tf_scroll_keeps_range_ordered(
    n: usize,
    stored: Option<(u32, u32)>,
    move_min: bool,
    delta: i32,
)
    requires
        spec_tf_default_range(n) is Some,
        stored matches Some((a, b)) ==> spec_tf_default_range(n).unwrap().0 <= a <= b
            <= spec_tf_default_range(n).unwrap().1,
    ensures
        ({
            let (lo, hi) = spec_tf_default_range(n).unwrap();
            let (a, b) = tf_scroll_range_of(n, stored, move_min, delta).unwrap();
            lo <= a <= b <= hi
        }),
{
}

/// A scroll of one notch (`delta` is -1, 0 or 1) over a slider whose range
/// lies within its group's bounds moves at most one end of the range, by
/// at most one.
pub proof fn law_tf_scroll_steps_one_end_by_one(
    n: usize,
    stored: Option<(u32, u32)>,
    move_min: bool,
    delta: i32,
)
    requires
        spec_tf_default_range(n) is Some,
        stored matches Some((a, b)) ==> spec_tf_default_range(n).unwrap().0 <= a <= b
            <= spec_tf_default_range(n).unwrap().1,
        -1 <= delta <= 1,
    ensures
        ({
            let (lo, hi) = spec_tf_default_range(n).unwrap();
            let (a, b) = match stored {
                Some(r) => r,
                None => (lo, hi),
            };
            let (a2, b2) = tf_scroll_range_of(n, stored, move_min, delta).unwrap();
            &&& move_min ==> b2 == b && -1 <= a2 - a <= 1
            &&& !move_min ==> a2 == a && -1 <= b2 - b <= 1
        }),
{
}

// ---------------------------------------------------------------------------
// Hover targets (pointer moves)
// ---------------------------------------------------------------------------

/// The zone of a chart leaf's tab under the pointer.
#[derive(Debug, Clone, Copy, PartialEq, Eq)]
pub enum LeafTabZone {
    GearMenu,
    ColorTag,
    Body,
}

/// What the hovered widget highlights.
#[derive(Debug, Clone, PartialEq, Eq)]
pub enum HoverTarget {
    /// `dtb:{item}`: an item of the left drawing toolbar.
    LeftToolbar(String),
    /// `csb:{item}`: an item of the top control strip.
    TopToolbar(String),
    /// `btb:{item}`: an item of the bottom toolbar.
    BottomToolbar(String),
    /// `rtb:{item}`: an item of the right toolbar.
    RightToolbar(String),
    /// `ilb:inline:style_option:..` or `ilb:inline:width_option:..`.
    InlineDropdownItem(String),
    /// The inline toolbar's background absorbers.
    InlineBackground,
    /// Any other `ilb:{item}`.
    InlineItem(String),
    /// `dropdown:{dropdown}:{item}`: the item part.
    DropdownItem(String),
    /// `context_menu:item:{item}`.
    ContextMenuItem(String),
    /// `context_menu:bg`.
    ContextMenuBackground,
    /// `leaf_tab:{leaf}:{zone}`.
    LeafTab(u64, LeafTabZone),
    /// `clock_popup:{item}`.
    ClockPopupItem(String),
    /// Any `wl_modal:..` or `wl_group_name:..` widget, by its whole id.
    WatchlistModalWidget(String),
    /// `ind_search:{item}` or `modal_search:item:{item}`.
    SearchItem(String),
    /// `agent:leaf:{leaf}:focus`.
    AgentLeaf(u64),
    /// `slot:{slot}:leaf:{leaf}:focus`.
    FreeLeaf(usize, u64),
    /// `slot:{slot}:leaf:{leaf}:{local}`: a widget registered by a panel.
    PanelWidget(usize, u64, String),
    /// No hover highlight.
    Nothing,
}

/// A hover target with its texts as character sequences.
pub enum HoverView {
    LeftToolbar(Seq<char>),
    TopToolbar(Seq<char>),
    BottomToolbar(Seq<char>),
    RightToolbar(Seq<char>),
    InlineDropdownItem(Seq<char>),
    InlineBackground,
    InlineItem(Seq<char>),
    DropdownItem(Seq<char>),
    ContextMenuItem(Seq<char>),
    ContextMenuBackground,
    LeafTab(u64, LeafTabZone),
    ClockPopupItem(Seq<char>),
    WatchlistModalWidget(Seq<char>),
    SearchItem(Seq<char>),
    AgentLeaf(u64),
    FreeLeaf(usize, u64),
    PanelWidget(usize, u64, Seq<char>),
    Nothing,
}

impl View for HoverTarget {
    type V = HoverView;

    open spec fn view(&self) -> HoverView {
        match self {
            HoverTarget::LeftToolbar(s) => HoverView::LeftToolbar(s@),
            HoverTarget::TopToolbar(s) => HoverView::TopToolbar(s@),
            HoverTarget::BottomToolbar(s) => HoverView::BottomToolbar(s@),
            HoverTarget::RightToolbar(s) => HoverView::RightToolbar(s@),
            HoverTarget::InlineDropdownItem(s) => HoverView::InlineDropdownItem(s@),
            HoverTarget::InlineBackground => HoverView::InlineBackground,
            HoverTarget::InlineItem(s) => HoverView::InlineItem(s@),
            HoverTarget::DropdownItem(s) => HoverView::DropdownItem(s@),
            HoverTarget::ContextMenuItem(s) => HoverView::ContextMenuItem(s@),
            HoverTarget::ContextMenuBackground => HoverView::ContextMenuBackground,
            HoverTarget::LeafTab(l, z) => HoverView::LeafTab(*l, *z),
            HoverTarget::ClockPopupItem(s) => HoverView::ClockPopupItem(s@),
            HoverTarget::WatchlistModalWidget(s) => HoverView::WatchlistModalWidget(s@),
            HoverTarget::SearchItem(s) => HoverView::SearchItem(s@),
            HoverTarget::AgentLeaf(l) => HoverView::AgentLeaf(*l),
            HoverTarget::FreeLeaf(i, l) => HoverView::FreeLeaf(*i, *l),
            HoverTarget::PanelWidget(i, l, s) => HoverView::PanelWidget(*i, *l, s@),
            HoverTarget::Nothing => HoverView::Nothing,
        }
    }
}

/// The item part of `dropdown:{dropdown}:{item}`: what follows the second
/// colon, or nothing when there is no second colon.
pub open spec fn dropdown_item_of(s: Seq<char>) -> Seq<char> {
    match find_from(s, ":"@, 0) {
        Some(i) => match find_from(s, ":"@, i + 1) {
            Some(j) => s.skip(j + 1),
            None => Seq::empty(),
        },
        None => Seq::empty(),
    }
}

/// The hover of an inline-toolbar item.
pub open spec fn inline_hover_of(item: Seq<char>) -> HoverView {
    if starts_with(item, "inline:style_option:"@) || starts_with(item, "inline:width_option:"@) {
        HoverView::InlineDropdownItem(item)
    } else if item == "inline_dropdown:__bg__"@ || item == "__bg__"@ {
        HoverView::InlineBackground
    } else {
        HoverView::InlineItem(item)
    }
}

/// The hover of a `leaf_tab:` id, whose rest is `{leaf}:{zone}`.
pub open spec fn leaf_tab_hover_of(s: Seq<char>) -> HoverView {
    let p = "leaf_tab:"@;
    match find_from(s, ":"@, p.len() as int) {
        Some(c) => match spec_parse_u64(s.subrange(p.len() as int, c)) {
            Some(l) => HoverView::LeafTab(
                l,
                if s.skip(c + 1) == "gear"@ {
                    LeafTabZone::GearMenu
                } else if s.skip(c + 1) == "color_tag"@ {
                    LeafTabZone::ColorTag
                } else {
                    LeafTabZone::Body
                },
            ),
            None => HoverView::Nothing,
        },
        None => HoverView::Nothing,
    }
}

/// The hover of an `agent:leaf:` id.
pub open spec fn agent_hover_of(s: Seq<char>) -> HoverView {
    let p = "agent:leaf:"@;
    let x = ":focus"@;
    if ends_with_after(s, p.len() as int, x) {
        match spec_parse_u64(s.subrange(p.len() as int, s.len() - x.len())) {
            Some(l) => HoverView::AgentLeaf(l),
            None => HoverView::Nothing,
        }
    } else {
        HoverView::Nothing
    }
}

/// The hover of a `slot:` id.
pub open spec fn slot_hover_of(s: Seq<char>) -> HoverView {
    let p = "slot:"@;
    let m = ":leaf:"@;
    let x = ":focus"@;
    match find_from(s, m, p.len() as int) {
        Some(k) => match spec_parse_usize(s.subrange(p.len() as int, k)) {
            Some(idx) => if ends_with_after(s, k + m.len(), x) {
                match spec_parse_u64(s.subrange(k + m.len(), s.len() - x.len())) {
                    Some(l) => HoverView::FreeLeaf(idx, l),
                    None => HoverView::Nothing,
                }
            } else {
                match find_from(s, ":"@, k + m.len()) {
                    Some(c) => match spec_parse_u64(s.subrange(k + m.len(), c)) {
                        Some(l) => HoverView::PanelWidget(idx, l, s.skip(c + 1)),
                        None => HoverView::Nothing,
                    },
                    None => HoverView::Nothing,
                }
            },
            None => HoverView::Nothing,
        },
        None => HoverView::Nothing,
    }
}

/// What the hovered widget `s` highlights, prefixes tried in order.
pub open spec fn hover_target_of(s: Seq<char>) -> HoverView {
    if starts_with(s, "dtb:"@) {
        HoverView::LeftToolbar(s.skip(4))
    } else if starts_with(s, "csb:"@) {
        HoverView::TopToolbar(s.skip(4))
    } else if starts_with(s, "btb:"@) {
        HoverView::BottomToolbar(s.skip(4))
    } else if starts_with(s, "rtb:"@) {
        HoverView::RightToolbar(s.skip(4))
    } else if starts_with(s, "ilb:"@) {
        inline_hover_of(s.skip(4))
    } else if starts_with(s, "dropdown:"@) && s != "dropdown:__bg__"@ {
        HoverView::DropdownItem(dropdown_item_of(s))
    } else if starts_with(s, "context_menu:item:"@) {
        HoverView::ContextMenuItem(s.skip("context_menu:item:"@.len() as int))
    } else if s == "context_menu:bg"@ {
        HoverView::ContextMenuBackground
    } else if starts_with(s, "leaf_tab:"@) {
        leaf_tab_hover_of(s)
    } else if starts_with(s, "clock_popup:"@) {
        HoverView::ClockPopupItem(s.skip("clock_popup:"@.len() as int))
    } else if starts_with(s, "wl_modal:"@) || starts_with(s, "wl_group_name:"@) {
        HoverView::WatchlistModalWidget(s)
    } else if starts_with(s, "ind_search:"@) {
        HoverView::SearchItem(s.skip("ind_search:"@.len() as int))
    } else if starts_with(s, "modal_search:item:"@) {
        HoverView::SearchItem(s.skip("modal_search:item:"@.len() as int))
    } else if starts_with(s, "agent:leaf:"@) {
        agent_hover_of(s)
    } else if starts_with(s, "slot:"@) {
        slot_hover_of(s)
    } else {
        HoverView::Nothing
    }
}

/// `s[lo..]` as a `String`.
fn tail_string(s: &Vec<char>, lo: usize) -> (r: String)
    requires
        lo <= s@.len(),
    ensures
        r@ == s@.skip(lo as int),
{
    let r = string_from_range(s, lo, s.len());
    assert(s@.subrange(lo as int, s@.len() as int) =~= s@.skip(lo as int));
    r
}

/// Whether `s` starts with the characters of `p`.
fn starts(s: &Vec<char>, p: &str) -> (r: bool)
    ensures
        r == starts_with(s@, p@),
{
    matches_at(s, 0, &chars_of(p))
}

/// Whether `s` holds exactly the characters of `p`.
fn equals(s: &Vec<char>, p: &str) -> (r: bool)
    ensures
        r == (s@ == p@),
{
    let r = range_eq(s, 0, s.len(), &chars_of(p));
    assert(s@.subrange(0, s@.len() as int) =~= s@);
    r
}

/// The hover of an inline-toolbar item `s[4..]`.
fn inline_hover(s: &Vec<char>) -> (r: HoverTarget)
    requires
        4 <= s@.len(),
    ensures
        r@ == inline_hover_of(s@.skip(4)),
{
    let item = tail_string(s, 4);
    let iv = chars_of(item.as_str());
    if starts(&iv, "inline:style_option:") || starts(&iv, "inline:width_option:") {
        HoverTarget::InlineDropdownItem(item)
    } else if equals(&iv, "inline_dropdown:__bg__") || equals(&iv, "__bg__") {
        HoverTarget::InlineBackground
    } else {
        HoverTarget::InlineItem(item)
    }
}

/// The hover of a `leaf_tab:` id.
fn leaf_tab_hover(s: &Vec<char>) -> (r: HoverTarget)
    requires
        9 <= s@.len(),
        "leaf_tab:"@.len() == 9,
    ensures
        r@ == leaf_tab_hover_of(s@),
{
    let colon = chars_of(":");
    proof {
        reveal_strlit(":");
        lemma_find_from(s@, colon@, 9);
    }
    assert(s@.len() == s.len());
    match find(s, &colon, 9) {
        Some(c) => {
            assert(c + colon@.len() <= s@.len());
            match parse_u64_in(s, 9, c) {
                Some(l) => {
                    let rest = tail_string(s, c + 1);
                    let rv = chars_of(rest.as_str());
                    let zone = if equals(&rv, "gear") {
                        LeafTabZone::GearMenu
                    } else if equals(&rv, "color_tag") {
                        LeafTabZone::ColorTag
                    } else {
                        LeafTabZone::Body
                    };
                    HoverTarget::LeafTab(l, zone)
                },
                None => HoverTarget::Nothing,
            }
        },
        None => HoverTarget::Nothing,
    }
}

/// The hover of an `agent:leaf:` id.
fn agent_hover(s: &Vec<char>) -> (r: HoverTarget)
    requires
        11 <= s@.len(),
        "agent:leaf:"@.len() == 11,
    ensures
        r@ == agent_hover_of(s@),
{
    let x = chars_of(":focus");
    if x.len() <= s.len() && 11 <= s.len() - x.len() && matches_at(s, s.len() - x.len(), &x) {
        match parse_u64_in(s, 11, s.len() - x.len()) {
            Some(l) => HoverTarget::AgentLeaf(l),
            None => HoverTarget::Nothing,
        }
    } else {
        HoverTarget::Nothing
    }
}

/// The hover of a `slot:` id.
fn slot_hover(s: &Vec<char>) -> (r: HoverTarget)
    requires
        5 <= s@.len(),
        "slot:"@.len() == 5,
    ensures
        r@ == slot_hover_of(s@),
{
    let m = chars_of(":leaf:");
    let x = chars_of(":focus");
    let colon = chars_of(":");
    proof {
        reveal_strlit(":");
        lemma_find_from(s@, m@, 5);
    }
    assert(s@.len() == s.len());
    let k = match find(s, &m, 5) {
        Some(k) => k,
        None => return HoverTarget::Nothing,
    };
    assert(k + m@.len() <= s@.len());
    let idx = match parse_usize_in(s, 5, k) {
        Some(v) => v,
        None => return HoverTarget::Nothing,
    };
    let after = k + m.len();
    if x.len() <= s.len() && after <= s.len() - x.len() && matches_at(s, s.len() - x.len(), &x) {
        match parse_u64_in(s, after, s.len() - x.len()) {
            Some(l) => HoverTarget::FreeLeaf(idx, l),
            None => HoverTarget::Nothing,
        }
    } else {
        proof {
            lemma_find_from(s@, colon@, after as int);
        }
        match find(s, &colon, after) {
            Some(c) => {
                assert(c + colon@.len() <= s@.len());
                match parse_u64_in(s, after, c) {
                    Some(l) => HoverTarget::PanelWidget(idx, l, tail_string(s, c + 1)),
                    None => HoverTarget::Nothing,
                }
            },
            None => HoverTarget::Nothing,
        }
    }
}

/// Classify the hovered widget `id` into the highlight it drives.
pub fn hover_target(id: &str) -> (r: HoverTarget)
    ensures
        r@ == hover_target_of(id@),
{
    proof {
        reveal_strlit("dtb:");
        reveal_strlit("csb:");
        reveal_strlit("btb:");
        reveal_strlit("rtb:");
        reveal_strlit("ilb:");
        reveal_strlit("leaf_tab:");
        reveal_strlit("agent:leaf:");
        reveal_strlit("slot:");
    }
    let s = chars_of(id);
    if starts(&s, "dtb:") {
        HoverTarget::LeftToolbar(tail_string(&s, 4))
    } else if starts(&s, "csb:") {
        HoverTarget::TopToolbar(tail_string(&s, 4))
    } else if starts(&s, "btb:") {
        HoverTarget::BottomToolbar(tail_string(&s, 4))
    } else if starts(&s, "rtb:") {
        HoverTarget::RightToolbar(tail_string(&s, 4))
    } else if starts(&s, "ilb:") {
        inline_hover(&s)
    } else if starts(&s, "dropdown:") && !equals(&s, "dropdown:__bg__") {
        let colon = chars_of(":");
        proof {
            reveal_strlit(":");
            lemma_find_from(s@, colon@, 0);
        }
        assert(s@.len() == s.len());
        let item = match find(&s, &colon, 0) {
            Some(i) => {
                proof {
                    lemma_find_from(s@, colon@, i + 1);
                }
                match find(&s, &colon, i + 1) {
                    Some(j) => tail_string(&s, j + 1),
                    None => String::new(),
                }
            },
            None => String::new(),
        };
        HoverTarget::DropdownItem(item)
    } else if starts(&s, "context_menu:item:") {
        HoverTarget::ContextMenuItem(tail_string(&s, chars_of("context_menu:item:").len()))
    } else if equals(&s, "context_menu:bg") {
        HoverTarget::ContextMenuBackground
    } else if starts(&s, "leaf_tab:") {
        leaf_tab_hover(&s)
    } else if starts(&s, "clock_popup:") {
        HoverTarget::ClockPopupItem(tail_string(&s, chars_of("clock_popup:").len()))
    } else if starts(&s, "wl_modal:") || starts(&s, "wl_group_name:") {
        assert(s@.skip(0) =~= s@);
        HoverTarget::WatchlistModalWidget(tail_string(&s, 0))
    } else if starts(&s, "ind_search:") {
        HoverTarget::SearchItem(tail_string(&s, chars_of("ind_search:").len()))
    } else if starts(&s, "modal_search:item:") {
        HoverTarget::SearchItem(tail_string(&s, chars_of("modal_search:item:").len()))
    } else if starts(&s, "agent:leaf:") {
        agent_hover(&s)
    } else if starts(&s, "slot:") {
        slot_hover(&s)
    } else {
        HoverTarget::Nothing
    }
}

// ---------------------------------------------------------------------------
// Colon-separated fields
// ---------------------------------------------------------------------------

/// Where field `k` of `s` split on `':'` starts, if `s` has that many fields.
pub open spec fn field_start(s: Seq<char>, k: nat) -> Option<int>
    decreases k,
{
    if k == 0 {
        Some(0)
    } else {
        match field_start(s, (k - 1) as nat) {
            Some(a) => match find_from(s, ":"@, a) {
                Some(c) => Some(c + 1),
                None => None,
            },
            None => None,
        }
    }
}

/// Where the field starting at `a` ends: at the next `':'` or the end.
pub open spec fn field_end(s: Seq<char>, a: int) -> int {
    match find_from(s, ":"@, a) {
        Some(c) => c,
        None => s.len() as int,
    }
}

/// Field `k` of `s` split on `':'`, if it exists.
pub open spec fn nth_field(s: Seq<char>, k: nat) -> Option<Seq<char>> {
    match field_start(s, k) {
        Some(a) => Some(s.subrange(a, field_end(s, a))),
        None => None,
    }
}

/// Start and end of field `k`, if `s` has more than `k` fields.
fn field_range(s: &Vec<char>, k: usize) -> (r: Option<(usize, usize)>)
    ensures
        match r {
            Some((a, b)) => field_start(s@, k as nat) == Some(a as int) && b == field_end(s@, a as int)
                && a <= b <= s@.len(),
            None => field_start(s@, k as nat) is None,
        },
{
    let colon = chars_of(":");
    proof {
        reveal_strlit(":");
    }
    assert(s@.len() == s.len());
    let mut a: usize = 0;
    let mut j: usize = 0;
    while j < k
        invariant
            colon@ == ":"@,
            colon@.len() == 1,
            s@.len() <= usize::MAX,
            j <= k,
            a <= s@.len(),
            field_start(s@, j as nat) == Some(a as int),
        decreases k - j,
    {
        proof {
            lemma_find_from(s@, colon@, a as int);
        }
        match find(s, &colon, a) {
            Some(c) => {
                a = c + 1;
            },
            None => {
                proof {
                    lemma_field_start_none(s@, (j + 1) as nat, k as nat);
                }
                return None;
            },
        }
        j = j + 1;
    }
    proof {
        lemma_find_from(s@, colon@, a as int);
    }
    match find(s, &colon, a) {
        Some(c) => Some((a, c)),
        None => Some((a, s.len())),
    }
}

/// A missing field has no later field either.
proof fn lemma_field_start_none(s: Seq<char>, j: nat, k: nat)
    requires
        field_start(s, j) is None,
        j <= k,
    ensures
        field_start(s, k) is None,
    decreases k - j,
{
    if j < k {
        lemma_field_start_none(s, j + 1, k);
    }
}

/// `(slot, leaf)` of a `slot:{slot}:leaf:{leaf}:focus_content` id read by
/// fields: fields 1 and 3 of the colon-split id, the slot below `slot_count`.
pub open spec fn spec_slot_focus_fields(s: Seq<char>, slot_count: usize) -> Option<(usize, u64)> {
    if starts_with(s, "slot:"@) && ends_with_after(s, 0, ":focus_content"@) && field_start(s, 4) is Some {
        match (spec_parse_usize(nth_field(s, 1).unwrap()), spec_parse_u64(nth_field(s, 3).unwrap())) {
            (Some(i), Some(l)) => if i < slot_count {
                Some((i, l))
            } else {
                None
            },
            _ => None,
        }
    } else {
        None
    }
}

/// Read `(slot, leaf)` from a double-clicked `slot:..:focus_content` id.
pub fn slot_focus_fields(id: &str, slot_count: usize) -> (r: Option<(usize, u64)>)
    ensures
        r == spec_slot_focus_fields(id@, slot_count),
{
    let s = chars_of(id);
    let x = chars_of(":focus_content");
    if !matches_at(&s, 0, &chars_of("slot:")) {
        return None;
    }
    if x.len() > s.len() || !matches_at(&s, s.len() - x.len(), &x) {
        return None;
    }
    if field_range(&s, 4).is_none() {
        return None;
    }
    proof {
        lemma_field_start_some(s@, 1, 4);
        lemma_field_start_some(s@, 3, 4);
    }
    let (a1, b1) = field_range(&s, 1).unwrap();
    let (a3, b3) = field_range(&s, 3).unwrap();
    match (parse_usize_in(&s, a1, b1), parse_u64_in(&s, a3, b3)) {
        (Some(i), Some(l)) => {
            if i < slot_count {
                Some((i, l))
            } else {
                None
            }
        },
        _ => None,
    }
}

/// An existing field has all earlier fields.
proof fn lemma_field_start_some(s: Seq<char>, j: nat, k: nat)
    requires
        field_start(s, k) is Some,
        j <= k,
    ensures
        field_start(s, j) is Some,
    decreases k - j,
{
    if j < k {
        lemma_field_start_some(s, j, (k - 1) as nat);
    }
}

/// Append the decimal rendering of `n`.
pub(crate) fn push_decimal(v: &mut Vec<char>, n: usize)
    ensures
        final(v)@ == old(v)@ + crate::number::decimal_string(n as nat),
    decreases n,
{
    if n < 10 {
        let d = n as u8 + 48;
        v.push(d as char);
        assert(old(v)@.push(d as char) =~= old(v)@ + seq![((n + 48) as u32) as char]);
    } else {
        push_decimal(v, n / 10);
        let d = (n % 10) as u8 + 48;
        v.push(d as char);
        assert(((n as nat) / 10) == (n / 10) as nat);
        assert(old(v)@ + crate::number::decimal_string((n / 10) as nat) + seq![d as char] =~= old(
            v,
        )@ + crate::number::decimal_string((n / 10) as nat).push(d as char));
    }
}

/// The leaf of the content widget of free slot `slot`:
/// `slot:{slot}:leaf:{leaf}:focus_content`, the leaf read as field 3.
pub open spec fn spec_slot_item_leaf(s: Seq<char>, slot: usize) -> Option<u64> {
    let p = "slot:"@ + crate::number::decimal_string(slot as nat) + ":leaf:"@;
    if starts_with(s, p) && ends_with_after(s, 0, ":focus_content"@) && field_start(s, 3) is Some {
        spec_parse_u64(nth_field(s, 3).unwrap())
    } else {
        None
    }
}

/// Read the leaf of a clicked content widget of free slot `slot`.
pub fn slot_item_leaf(id: &str, slot: usize) -> (r: Option<u64>)
    ensures
        r == spec_slot_item_leaf(id@, slot),
{
    let s = chars_of(id);
    let mut p = chars_of("slot:");
    push_decimal(&mut p, slot);
    let m = chars_of(":leaf:");
    let mut k: usize = 0;
    let ghost p0 = p@;
    while k < m.len()
        invariant
            k <= m@.len(),
            p@ == p0 + m@.take(k as int),
        decreases m@.len() - k,
    {
        p.push(m[k]);
        assert(m@.take(k as int + 1) =~= m@.take(k as int).push(m@[k as int]));
        k = k + 1;
    }
    assert(m@.take(m@.len() as int) =~= m@);
    let x = chars_of(":focus_content");
    if !matches_at(&s, 0, &p) {
        return None;
    }
    if x.len() > s.len() || !matches_at(&s, s.len() - x.len(), &x) {
        return None;
    }
    match field_range(&s, 3) {
        Some((a, b)) => parse_u64_in(&s, a, b),
        None => None,
    }
}

// ---------------------------------------------------------------------------
// Rendered ids parse back to what was rendered
// ---------------------------------------------------------------------------

/// `s` is `p` followed by `d`, so it starts with `p` and `d` follows.
proof fn lemma_split_prefix(p: Seq<char>, d: Seq<char>)
    ensures
        starts_with(p + d, p),
        (p + d).skip(p.len() as int) == d,
{
    assert((p + d).subrange(0, p.len() as int) =~= p);
    assert((p + d).skip(p.len() as int) =~= d);
}

/// The leaf rendered into an `agent:leaf:{leaf}:focus_content` id is the
/// leaf the id parses to.
pub proof fn law_agent_leaf_focus_roundtrip(leaf: u64)
    ensures
        spec_agent_leaf_focus("agent:leaf:"@ + decimal_string(leaf as nat) + ":focus_content"@)
            == Some(leaf),
{
    let p = "agent:leaf:"@;
    let x = ":focus_content"@;
    let d = decimal_string(leaf as nat);
    let s = p + d + x;
    assert(s.subrange(0, p.len() as int) =~= p);
    assert(s.subrange(s.len() - x.len(), s.len() as int) =~= x);
    assert(s.subrange(p.len() as int, s.len() - x.len()) =~= d);
    lemma_parse_decimal_string(leaf as nat, u64::MAX as nat);
}

/// The index rendered into an `agent:sep:{idx}` id is the index it parses to.
pub proof fn law_agent_separator_roundtrip(idx: usize)
    ensures
        spec_agent_separator("agent:sep:"@ + decimal_string(idx as nat)) == Some(idx),
{
    lemma_split_prefix("agent:sep:"@, decimal_string(idx as nat));
    lemma_parse_decimal_string(idx as nat, usize::MAX as nat);
}

/// The one-based number rendered into a `watchlist_sep_{n}` id gives back
/// the zero-based separator index.
pub proof fn law_watchlist_separator_roundtrip(idx: usize)
    requires
        idx < usize::MAX,
    ensures
        spec_watchlist_separator("watchlist_sep_"@ + decimal_string((idx + 1) as nat)) == Some(idx),
{
    lemma_split_prefix("watchlist_sep_"@, decimal_string((idx + 1) as nat));
    lemma_parse_decimal_string((idx + 1) as nat, usize::MAX as nat);
}

/// The row rendered into a `watchlist_{row}` id is the row it parses to.
pub proof fn law_watchlist_row_roundtrip(row: usize)
    ensures
        spec_watchlist_row("watchlist_"@ + decimal_string(row as nat)) == Some(row),
{
    lemma_split_prefix("watchlist_"@, decimal_string(row as nat));
    lemma_decimal_string(row as nat);
    lemma_parse_decimal_string(row as nat, usize::MAX as nat);
}

/// The first occurrence of `m` at or after `lo` is at `k`, when `m` occurs
/// at `k` and no earlier position holds its first character.
proof fn lemma_find_first(s: Seq<char>, m: Seq<char>, lo: int, k: int)
    requires
        0 <= lo <= k,
        m.len() > 0,
        occurs_at(s, m, k),
        forall|i: int| lo <= i < k ==> s[i] != m[0],
    ensures
        find_from(s, m, lo) == Some(k),
    decreases k - lo,
{
    if lo < k {
        assert(s.subrange(lo, lo + m.len())[0] == s[lo]);
        lemma_find_first(s, m, lo + 1, k);
    }
}

/// The slot and separator rendered into a `slot:{slot}:sep:{sep}` id are
/// what it parses to.
pub proof fn law_slot_separator_roundtrip(slot: usize, sep: usize)
    requires
        slot < FREE_SLOT_COUNT,
    ensures
        spec_slot_separator(
            "slot:"@ + decimal_string(slot as nat) + ":sep:"@ + decimal_string(sep as nat),
        ) == Some((slot, sep)),
{
    reveal_strlit(":sep:");
    let p = "slot:"@;
    let m = ":sep:"@;
    let da = decimal_string(slot as nat);
    let db = decimal_string(sep as nat);
    let s = p + da + m + db;
    let k: int = (p.len() + da.len()) as int;
    lemma_decimal_string(slot as nat);
    lemma_decimal_string(sep as nat);
    assert(s.subrange(0, p.len() as int) =~= p);
    assert(s.subrange(k, k + m.len()) =~= m);
    assert forall|i: int| p.len() <= i < k implies s[i] != m[0] by {
        assert(s[i] == da[i - p.len()]);
        assert(crate::number::is_digit(da[i - p.len()]));
    }
    lemma_find_first(s, m, p.len() as int, k);
    assert(s.subrange(p.len() as int, k) =~= da);
    assert(s.skip(k + m.len()) =~= db);
    lemma_parse_decimal_string(slot as nat, usize::MAX as nat);
    lemma_parse_decimal_string(sep as nat, usize::MAX as nat);
}

/// The leaf rendered into an `agent:leaf:{leaf}:scrollbar_handle` id is the
/// leaf whose scrollbar the id names.
pub proof fn law_agent_scrollbar_roundtrip(leaf: u64)
    ensures
        spec_scrollbar_handle(
            "agent:leaf:"@ + decimal_string(leaf as nat) + ":scrollbar_handle"@,
        ) == Some(ScrollbarHandle::AgentLeaf(leaf)),
{
    reveal_strlit("agent:leaf:");
    reveal_strlit("sidebar");
    reveal_strlit("signal_group:");
    let p = "agent:leaf:"@;
    let x = ":scrollbar_handle"@;
    let d = decimal_string(leaf as nat);
    let s = p + d + x;
    let n = p + d;
    assert(s.subrange(s.len() - x.len(), s.len() as int) =~= x);
    assert(s.take(s.len() - x.len()) =~= n);
    assert(n[0] == 'a');
    assert(n != "sidebar"@);
    assert(!starts_with(n, "signal_group:"@)) by {
        if n.len() >= 13 {
            assert(n.subrange(0, 13)[0] == n[0]);
        }
    }
    lemma_split_prefix(p, d);
    lemma_parse_decimal_string(leaf as nat, u64::MAX as nat);
}

/// The index rendered into a `tf_{n}{suffix}` field id is the index the id
/// gives back.
pub proof fn law_tf_field_roundtrip(n: usize, suffix: Seq<char>)
    ensures
        spec_tf_field_index("tf_"@ + decimal_string(n as nat) + suffix, suffix) == Some(n),
{
    let p = "tf_"@;
    let d = decimal_string(n as nat);
    let s = p + d + suffix;
    assert(s.subrange(0, p.len() as int) =~= p);
    assert(s.subrange(s.len() - suffix.len(), s.len() as int) =~= suffix);
    assert(s.subrange(p.len() as int, s.len() - suffix.len()) =~= d);
    lemma_parse_decimal_string(n as nat, usize::MAX as nat);
}

/// The slot and leaf rendered into a `slot:{slot}:leaf:{leaf}:dom:body` id
/// are what it parses to.
pub proof fn law_slot_dom_body_roundtrip(slot: usize, leaf: u64)
    requires
        slot < FREE_SLOT_COUNT,
    ensures
        spec_slot_leaf_widget(
            "slot:"@ + decimal_string(slot as nat) + ":leaf:"@ + decimal_string(leaf as nat)
                + ":dom:body"@,
        ) == Some((slot, leaf, SlotLeafPart::DomBody)),
{
    reveal_strlit(":leaf:");
    let p = "slot:"@;
    let m = ":leaf:"@;
    let x = ":dom:body"@;
    let da = decimal_string(slot as nat);
    let dl = decimal_string(leaf as nat);
    let s = p + da + m + dl + x;
    let k: int = (p.len() + da.len()) as int;
    lemma_decimal_string(slot as nat);
    lemma_decimal_string(leaf as nat);
    assert(s.subrange(0, p.len() as int) =~= p);
    assert(s.subrange(k, k + m.len()) =~= m);
    assert forall|i: int| p.len() <= i < k implies s[i] != m[0] by {
        assert(s[i] == da[i - p.len()]);
        assert(crate::number::is_digit(da[i - p.len()]));
    }
    lemma_find_first(s, m, p.len() as int, k);
    assert(s.subrange(p.len() as int, k) =~= da);
    assert(s.subrange(s.len() - x.len(), s.len() as int) =~= x);
    assert(s.subrange(k + m.len(), s.len() - x.len()) =~= dl);
    lemma_parse_decimal_string(slot as nat, usize::MAX as nat);
    lemma_parse_decimal_string(leaf as nat, u64::MAX as nat);
}

} // verus!
