//! What the copy shortcut copies: the text-field store's selection first,
//! then the fields of the open modals in a fixed order.

use vstd::prelude::*;
use crate::text_edit::{TextEditing, selected_text_of};

verus! {

/// A field the copy shortcut may copy from, in the order tried.
#[derive(Debug, Clone)]
pub struct CopySource {
    /// The field belongs to an open modal that owns the copy: its selection
    /// is copied, or nothing when it has none, and no later field is tried.
    pub owns_copy: bool,
    pub field: TextEditing,
}

/// The text copied from `sources[i..]`.
pub open spec fn copy_from(sources: Seq<CopySource>, i: int) -> Option<Seq<char>>
    decreases sources.len() - i,
{
    if i < 0 || i >= sources.len() {
        None
    } else if sources[i].owns_copy {
        selected_text_of(sources[i].field@)
    } else {
        match selected_text_of(sources[i].field@) {
            Some(t) => Some(t),
            None => copy_from(sources, i + 1),
        }
    }
}

/// The text copied: the store's copy when it has one, else the first
/// answer of the sources.
pub open spec fn copy_selection_of(store: Option<Seq<char>>, sources: Seq<CopySource>) -> Option<Seq<char>> {
    match store {
        Some(t) => Some(t),
        None => copy_from(sources, 0),
    }
}

/// The text the copy shortcut copies, given what the text-field store
/// copies (`store`) and the candidate fields in order.
pub fn copy_selection(store: Option<String>, sources: &Vec<CopySource>) -> (r: Option<String>)
    ensures
        match r {
            Some(s) => copy_selection_of(
                match store {
                    Some(t) => Some(t@),
                    None => None,
                },
                sources@,
            ) == Some(s@),
            None => copy_selection_of(
                match store {
                    Some(t) => Some(t@),
                    None => None,
                },
                sources@,
            ) is None,
        },
{
    if let Some(t) = store {
        return Some(t);
    }
    let mut i: usize = 0;
    while i < sources.len()
        invariant
            i <= sources@.len(),
            store is None,
            copy_from(sources@, 0) == copy_from(sources@, i as int),
        decreases sources@.len() - i,
    {
        let src = &sources[i];
        let sel = src.field.selected_text();
        if src.owns_copy {
            return sel;
        }
        if sel.is_some() {
            return sel;
        }
        i = i + 1;
    }
    None
}

} // verus!
