//! The parts of the settings window that compute rather than draw.
use vstd::prelude::*;
use crate::settings_gui::list_utils::{csv_items, split_items};

pub mod list_utils;

verus! {

/// How many item tags the settings window shows per list.
pub const MAX_TAGS: usize = 8;

/// The tags shown for a list: how many items it has, and the text of the
/// first `MAX_TAGS` tag slots (the items in order, then empty slots).
pub fn tag_slots(csv: &str) -> (r: (usize, Vec<String>))
    ensures
        r.0 == csv_items(csv@).len(),
        r.1@.len() == MAX_TAGS,
        forall|k: int|
            0 <= k < MAX_TAGS ==> (#[trigger] r.1@[k])@ == (if k < csv_items(csv@).len() {
                csv_items(csv@)[k]
            } else {
                Seq::<char>::empty()
            }),
{
    let items = split_items(csv, false);
    let count = items.len();
    let mut slots: Vec<String> = Vec::new();
    let mut k: usize = 0;
    while k < MAX_TAGS
        invariant
            count == items@.len(),
            items.deep_view() == csv_items(csv@),
            k <= MAX_TAGS,
            slots@.len() == k,
            forall|j: int|
                0 <= j < k ==> (#[trigger] slots@[j])@ == (if j < count {
                    items.deep_view()[j]
                } else {
                    Seq::<char>::empty()
                }),
        decreases MAX_TAGS - k,
    {
        if k < count {
            slots.push(items[k].clone());
        } else {
            slots.push(String::new());
        }
        k = k + 1;
    }
    (count, slots)
}

} // verus!
