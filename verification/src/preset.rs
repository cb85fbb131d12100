//! Pieces of saving the chart state into a preset: the order in which
//! indicator instances are written, and how a panel's symbol source is
//! recorded.

use vstd::prelude::*;
use crate::strings::{same_text, chars_of};

verus! {

/// Instance `a` is written before instance `b`: by display order, and in
/// their original order where the display orders are equal.
pub open spec fn written_before(orders: Seq<u64>, a: usize, b: usize) -> bool {
    orders[a as int] < orders[b as int] || (orders[a as int] == orders[b as int] && a < b)
}

/// `r` lists instances in writing order.
pub open spec fn in_writing_order(orders: Seq<u64>, r: Seq<usize>) -> bool {
    forall|i: int, j: int| 0 <= i < j < r.len() ==> written_before(orders, #[trigger] r[i], #[trigger] r[j])
}

/// The order in which the indicator instances (with display orders
/// `orders`) are written into a preset: every instance once, sorted by
/// display order, equal orders kept in their original order.
pub fn indicator_write_order(orders: &Vec<u64>) -> (r: Vec<usize>)
    ensures
        r@.len() == orders@.len(),
        forall|k: int| 0 <= k < r@.len() ==> #[trigger] r@[k] < orders@.len(),
        forall|j: usize| j < orders@.len() ==> #[trigger] r@.contains(j),
        in_writing_order(orders@, r@),
{
    let n = orders.len();
    let mut r: Vec<usize> = Vec::new();
    let mut i: usize = 0;
    while i < n
        invariant
            n == orders@.len(),
            i <= n,
            r@.len() == i,
            forall|k: int| 0 <= k < r@.len() ==> #[trigger] r@[k] < i,
            forall|j: usize| j < i ==> #[trigger] r@.contains(j),
            in_writing_order(orders@, r@),
        decreases n - i,
    {
        let key = orders[i];
        let mut p: usize = 0;
        while p < r.len() && orders[r[p]] <= key
            invariant
                n == orders@.len(),
                i < n,
                p <= r@.len(),
                forall|k: int| 0 <= k < r@.len() ==> #[trigger] r@[k] < i,
                forall|k: int| 0 <= k < p ==> orders@[#[trigger] r@[k] as int] <= key,
            decreases r@.len() - p,
        {
            p = p + 1;
        }
        proof {
            // Everything after `p` comes after the new instance.
            assert forall|k: int| p <= k < r@.len() implies orders@[#[trigger] r@[k] as int] > key by {
                if p < r@.len() && k > p {
                    assert(written_before(orders@, r@[p as int], r@[k]));
                }
            }
        }
        let ghost old_r = r@;
        r.insert(p, i);
        proof {
            assert(r@ == old_r.insert(p as int, i));
            assert forall|a: int, b: int| 0 <= a < b < r@.len() implies written_before(
                orders@,
                #[trigger] r@[a],
                #[trigger] r@[b],
            ) by {
                if a < p && b < p {
                    assert(r@[a] == old_r[a] && r@[b] == old_r[b]);
                } else if a < p && b == p {
                    assert(r@[a] == old_r[a]);
                } else if a < p && b > p {
                    assert(r@[a] == old_r[a] && r@[b] == old_r[b - 1]);
                } else if a == p {
                    assert(r@[b] == old_r[b - 1]);
                } else {
                    assert(r@[a] == old_r[a - 1] && r@[b] == old_r[b - 1]);
                }
            }
            assert forall|j: usize| j < i + 1 implies #[trigger] r@.contains(j) by {
                if j == i {
                    assert(r@[p as int] == i);
                } else {
                    assert(old_r.contains(j));
                    let k = choose|k: int| 0 <= k < old_r.len() && old_r[k] == j;
                    if k < p {
                        assert(r@[k] == old_r[k]);
                    } else {
                        assert(r@[k + 1] == old_r[k]);
                    }
                }
            }
            assert forall|k: int| 0 <= k < r@.len() implies #[trigger] r@[k] < i + 1 by {
                if k < p {
                    assert(r@[k] == old_r[k]);
                } else if k > p {
                    assert(r@[k] == old_r[k - 1]);
                }
            }
        }
        i = i + 1;
    }
    r
}

/// Where a saved panel takes its symbol from.
#[derive(Debug, Clone, PartialEq, Eq)]
pub enum SavedSource {
    /// The symbol the user focuses across the app.
    HyperFocus,
    Fixed { symbol: String, exchange: String, account_type: String },
}

/// A market-data panel with no exchange follows the focused symbol; one
/// with an exchange is saved with its symbol, exchange and account type.
pub fn saved_source(symbol: &str, exchange: &str, account_type: &str) -> (r: SavedSource)
    ensures
        exchange@.len() == 0 ==> r == SavedSource::HyperFocus,
        exchange@.len() > 0 ==> (r matches SavedSource::Fixed { symbol: s, exchange: e, account_type: a }
            && s@ == symbol@ && e@ == exchange@ && a@ == account_type@),
{
    if exchange.is_empty() {
        SavedSource::HyperFocus
    } else {
        SavedSource::Fixed {
            symbol: symbol.to_string(),
            exchange: exchange.to_string(),
            account_type: account_type.to_string(),
        }
    }
}

/// The identity of a preset: its id, name and creation time (seconds).
#[derive(Debug, Clone, PartialEq, Eq)]
pub struct PresetMeta {
    pub id: String,
    pub name: String,
    pub created_at: u64,
}

/// The identity a preset is saved under: saving over an existing preset
/// keeps its id, name and creation time (the name handed in is ignored);
/// a new preset takes the given id and name, created `now`.
pub fn preset_identity(existing: Option<&PresetMeta>, id: &str, name: &str, now: u64) -> (r: PresetMeta)
    ensures
        match existing {
            Some(e) => r.id@ == e.id@ && r.name@ == e.name@ && r.created_at == e.created_at,
            None => r.id@ == id@ && r.name@ == name@ && r.created_at == now,
        },
{
    match existing {
        Some(e) => PresetMeta { id: e.id.clone(), name: e.name.clone(), created_at: e.created_at },
        None => PresetMeta { id: id.to_string(), name: name.to_string(), created_at: now },
    }
}

/// The name an autosave saves the active preset under, if it saves: not
/// when autosave is off or no preset is active; the preset's own name when
/// it is known; "Default" for the default preset id when it is not; no
/// save for any other unknown id.
pub open spec fn autosave_name_of(enabled: bool, id: Seq<char>, known_name: Option<Seq<char>>) -> Option<Seq<char>> {
    if !enabled || id.len() == 0 {
        None
    } else {
        match known_name {
            Some(n) => Some(n),
            None => if id == "__default__"@ {
                Some("Default"@)
            } else {
                None
            },
        }
    }
}

/// Decide whether an autosave runs and under which name; `known_name` is
/// the name of the preset with id `id`, if there is one.
pub fn autosave_name(enabled: bool, id: &str, known_name: Option<&str>) -> (r: Option<String>)
    ensures
        match r {
            Some(n) => autosave_name_of(enabled, id@, match known_name {
                Some(k) => Some(k@),
                None => None,
            }) == Some(n@),
            None => autosave_name_of(enabled, id@, match known_name {
                Some(k) => Some(k@),
                None => None,
            }) is None,
        },
{
    if !enabled || chars_of(id).len() == 0 {
        return None;
    }
    match known_name {
        Some(n) => Some(n.to_string()),
        None => {
            if same_text(id, "__default__") {
                Some("Default".to_string())
            } else {
                None
            }
        },
    }
}

} // verus!
