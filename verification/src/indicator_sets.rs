//! Deploying an indicator set: the set replaces the indicators of the
//! active chart's symbol. The indicator manager that creates and removes
//! instances is the caller's; what the deployment records and clears is
//! decided here.

use vstd::prelude::*;
use crate::indicator_ids::{forget_ids, without_ids};
use crate::strings::same_text;

verus! {

/// The position of the first set whose id is `id`.
pub open spec fn set_position_of(ids: Seq<String>, id: Seq<char>, from: int) -> Option<usize>
    decreases ids.len() - from,
{
    if from < 0 || from >= ids.len() {
        None
    } else if ids[from]@ == id {
        Some(from as usize)
    } else {
        set_position_of(ids, id, from + 1)
    }
}

/// Find the indicator set with id `id` among the sets' ids.
pub fn find_indicator_set(ids: &Vec<String>, id: &str) -> (r: Option<usize>)
    ensures
        r == set_position_of(ids@, id@, 0),
{
    let mut k: usize = 0;
    while k < ids.len()
        invariant
            k <= ids@.len(),
            set_position_of(ids@, id@, 0) == set_position_of(ids@, id@, k as int),
        decreases ids@.len() - k,
    {
        if same_text(ids[k].as_str(), id) {
            return Some(k);
        }
        k = k + 1;
    }
    None
}

/// The undo record of an indicator the deployment created.
#[derive(Debug, Clone, PartialEq, Eq)]
pub struct AddIndicatorRecord {
    pub instance_id: u64,
    pub type_id: String,
}

/// The records of the first `n` templates: one for each template whose
/// instance was created (`created[k]` is the new instance's id), in the
/// set's order, with the template's type.
pub open spec fn deploy_records_of(types: Seq<String>, created: Seq<Option<u64>>, n: int) -> Seq<(u64, Seq<char>)>
    decreases n,
{
    if n <= 0 {
        Seq::empty()
    } else {
        let before = deploy_records_of(types, created, n - 1);
        match created[n - 1] {
            Some(id) => before.push((id, types[n - 1]@)),
            None => before,
        }
    }
}

/// The records as instance ids and type texts.
pub open spec fn records_view(r: Seq<AddIndicatorRecord>) -> Seq<(u64, Seq<char>)> {
    r.map_values(|x: AddIndicatorRecord| (x.instance_id, x.type_id@))
}

/// What a deployment changes besides the indicator manager.
#[derive(Debug, Clone)]
pub struct DeployState {
    /// The indicator ids each window's object tree shows.
    pub window_indicator_ids: Vec<Vec<u64>>,
    /// The indicators with a cached overlay state.
    pub overlay_state_ids: Vec<u64>,
    pub search_modal_open: bool,
    pub sidebar_dirty: bool,
}

/// Copy a list of ids.
fn copy_ids(v: &Vec<u64>) -> (r: Vec<u64>)
    ensures
        r@ == v@,
{
    let mut r: Vec<u64> = Vec::new();
    let mut k: usize = 0;
    while k < v.len()
        invariant
            k <= v@.len(),
            r@ == v@.take(k as int),
        decreases v@.len() - k,
    {
        r.push(v[k]);
        assert(v@.take(k as int + 1) =~= v@.take(k as int).push(v@[k as int]));
        k = k + 1;
    }
    assert(v@.take(v@.len() as int) =~= v@);
    r
}

impl DeployState {
    /// Deploy an indicator set whose templates have types `types`, after
    /// the symbol's existing indicators `existing` were removed and an
    /// instance was created for each template (`created`, `None` where the
    /// manager created none). Every window forgets the removed ids, the
    /// overlay states are cleared, the search modal closes and the sidebar
    /// is redrawn; the result holds one add-indicator undo record per
    /// created instance.
    pub fn deploy(&mut self, existing: &Vec<u64>, types: &Vec<String>, created: &Vec<Option<u64>>) -> (r: Vec<
        AddIndicatorRecord,
    >)
        requires
            types@.len() == created@.len(),
        ensures
            final(self).window_indicator_ids@.len() == old(self).window_indicator_ids@.len(),
            forall|k: int|
                0 <= k < old(self).window_indicator_ids@.len() ==> (
                #[trigger] final(self).window_indicator_ids@[k])@ == without_ids(
                    old(self).window_indicator_ids@[k]@,
                    existing@,
                ),
            final(self).overlay_state_ids@ == Seq::<u64>::empty(),
            !final(self).search_modal_open,
            final(self).sidebar_dirty,
            records_view(r@) == deploy_records_of(types@, created@, types@.len() as int),
    {
        let mut wins: Vec<Vec<u64>> = Vec::new();
        let mut k: usize = 0;
        while k < self.window_indicator_ids.len()
            invariant
                k <= self.window_indicator_ids@.len(),
                self.window_indicator_ids@ == old(self).window_indicator_ids@,
                wins@.len() == k,
                forall|j: int|
                    0 <= j < k ==> (#[trigger] wins@[j])@ == without_ids(
                        old(self).window_indicator_ids@[j]@,
                        existing@,
                    ),
            decreases self.window_indicator_ids@.len() - k,
        {
            let mut w = copy_ids(&self.window_indicator_ids[k]);
            forget_ids(&mut w, existing);
            wins.push(w);
            k = k + 1;
        }
        self.window_indicator_ids = wins;
        self.overlay_state_ids = Vec::new();
        self.search_modal_open = false;
        self.sidebar_dirty = true;
        let mut records: Vec<AddIndicatorRecord> = Vec::new();
        let mut t: usize = 0;
        while t < types.len()
            invariant
                t <= types@.len(),
                types@.len() == created@.len(),
                records_view(records@) == deploy_records_of(types@, created@, t as int),
            decreases types@.len() - t,
        {
            if let Some(id) = created[t] {
                let rec = AddIndicatorRecord { instance_id: id, type_id: types[t].clone() };
                let ghost before = records@;
                records.push(rec);
                assert(records_view(records@) =~= records_view(before).push((id, types@[t as int]@)));
            }
            t = t + 1;
        }
        records
    }
}

/// Deploying a set whose every template was created records one undo
/// command per template, in the set's order.
pub proof fn law_one_record_per_created_template(types: Seq<String>, created: Seq<Option<u64>>, n: int)
    requires
        0 <= n <= types.len(),
        types.len() == created.len(),
        forall|k: int| 0 <= k < n ==> #[trigger] created[k] is Some,
    ensures
        deploy_records_of(types, created, n).len() == n,
        forall|k: int|
            0 <= k < n ==> #[trigger] deploy_records_of(types, created, n)[k] == (
            created[k].unwrap(),
            types[k]@,
        ),
    decreases n,
{
    if n > 0 {
        law_one_record_per_created_template(types, created, n - 1);
    }
}

} // verus!
