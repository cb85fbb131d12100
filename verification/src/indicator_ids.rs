//! The per-window lists of indicator instance ids that the object tree
//! shows: an id is recorded once when an indicator is (re)created in a
//! window, and forgotten everywhere when the indicator is removed.

use vstd::prelude::*;

verus! {

/// Ids other than `id`.
pub open spec fn other_than(id: u64) -> spec_fn(u64) -> bool {
    |x: u64| x != id
}

/// Ids that do not occur in `removed`.
pub open spec fn not_in(removed: Seq<u64>) -> spec_fn(u64) -> bool {
    |x: u64| !removed.contains(x)
}

/// `ids` without any occurrence of `id`.
pub open spec fn without_id(ids: Seq<u64>, id: u64) -> Seq<u64> {
    ids.filter(other_than(id))
}

/// `ids` without any id that occurs in `removed`.
pub open spec fn without_ids(ids: Seq<u64>, removed: Seq<u64>) -> Seq<u64> {
    ids.filter(not_in(removed))
}

/// `ids` with `id` appended unless it is already there.
pub open spec fn with_id(ids: Seq<u64>, id: u64) -> Seq<u64> {
    if ids.contains(id) {
        ids
    } else {
        ids.push(id)
    }
}

/// Whether `id` occurs in `ids`.
pub fn has_id(ids: &Vec<u64>, id: u64) -> (r: bool)
    ensures
        r == ids@.contains(id),
{
    let mut i: usize = 0;
    while i < ids.len()
        invariant
            i <= ids@.len(),
            forall|j: int| 0 <= j < i ==> ids@[j] != id,
        decreases ids@.len() - i,
    {
        if ids[i] == id {
            assert(ids@[i as int] == id);
            return true;
        }
        i = i + 1;
    }
    false
}

/// Record `id` in the list, once.
pub fn record_id(ids: &mut Vec<u64>, id: u64)
    ensures
        final(ids)@ == with_id(old(ids)@, id),
{
    if !has_id(ids, id) {
        ids.push(id);
    }
}

/// Remove `one`, or, without it, every id in `removed`; the rest keep their
/// order.
fn retain_ids(ids: &mut Vec<u64>, removed: &Vec<u64>, one: Option<u64>)
    ensures
        final(ids)@ == match one {
            Some(id) => without_id(old(ids)@, id),
            None => without_ids(old(ids)@, removed@),
        },
{
    let ghost pred: spec_fn(u64) -> bool = match one {
        Some(id) => other_than(id),
        None => not_in(removed@),
    };
    let ghost s = ids@;
    let mut out: Vec<u64> = Vec::new();
    let mut i: usize = 0;
    while i < ids.len()
        invariant
            s == ids@,
            i <= s.len(),
            pred == (match one {
                Some(id) => other_than(id),
                None => not_in(removed@),
            }),
            out@ == s.take(i as int).filter(pred),
        decreases s.len() - i,
    {
        let x = ids[i];
        let keep = match one {
            Some(id) => x != id,
            None => !has_id(removed, x),
        };
        proof {
            reveal(Seq::filter);
            assert(s.take(i + 1).drop_last() =~= s.take(i as int));
            assert(s.take(i + 1).last() == x);
            assert(keep == pred(x));
        }
        if keep {
            out.push(x);
        }
        i = i + 1;
    }
    assert(s.take(s.len() as int) =~= s);
    *ids = out;
}

/// Forget `id`: remove every occurrence.
pub fn forget_id(ids: &mut Vec<u64>, id: u64)
    ensures
        final(ids)@ == without_id(old(ids)@, id),
{
    let none: Vec<u64> = Vec::new();
    retain_ids(ids, &none, Some(id));
}

/// Forget every id that occurs in `removed`.
pub fn forget_ids(ids: &mut Vec<u64>, removed: &Vec<u64>)
    ensures
        final(ids)@ == without_ids(old(ids)@, removed@),
{
    retain_ids(ids, removed, None);
}

/// After an id is forgotten it no longer occurs, and every other id stays.
pub proof fn law_forget_removes_only_that_id(ids: Seq<u64>, id: u64, other: u64)
    requires
        other != id,
    ensures
        !without_id(ids, id).contains(id),
        ids.contains(other) ==> without_id(ids, id).contains(other),
{
    broadcast use vstd::seq_lib::group_filter_ensures;

    let pred = other_than(id);
    if without_id(ids, id).contains(id) {
        let k = choose|k: int| 0 <= k < without_id(ids, id).len() && without_id(ids, id)[k] == id;
        assert(pred(ids.filter(pred)[k]));
    }
    if ids.contains(other) {
        let k = choose|k: int| 0 <= k < ids.len() && ids[k] == other;
        assert(pred(ids[k]));
    }
}

/// Recording an id twice records it once: a list without duplicates keeps
/// none, and the id occurs in it afterwards.
pub proof fn law_record_keeps_ids_unique(ids: Seq<u64>, id: u64)
    requires
        ids.no_duplicates(),
    ensures
        with_id(ids, id).no_duplicates(),
        with_id(ids, id).contains(id),
        with_id(with_id(ids, id), id) == with_id(ids, id),
{
    if !ids.contains(id) {
        let t = ids.push(id);
        assert(t[ids.len() as int] == id);
        assert forall|i: int, j: int| 0 <= i < t.len() && 0 <= j < t.len() && i != j implies t[i]
            != t[j] by {
            if i < ids.len() && j < ids.len() {
                assert(t[i] == ids[i] && t[j] == ids[j]);
            } else if i < ids.len() {
                assert(t[i] == ids[i]);
            } else if j < ids.len() {
                assert(t[j] == ids[j]);
            }
        }
    }
}

} // verus!
