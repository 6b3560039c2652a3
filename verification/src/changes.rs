//! Whether there is anything to merge.

use vstd::prelude::*;
use crate::db::{find_local, local_index, DbModel};
use crate::local_tree::{level, level_of};
use crate::rows::{LocalItem, LocalItemModel, SyncedItem, SyncedItemModel};
use crate::store::BookmarksStore;

verus! {

/// Whether the mirror has something to merge: a row that changed on the
/// server since the last merge, unless it is a tombstone for an item that
/// the local tree does not have.
pub open spec fn has_remote_changes(
    synced: Seq<SyncedItemModel>,
    items: Seq<LocalItemModel>,
) -> bool {
    exists|i: int|
        0 <= i < synced.len() && (#[trigger] synced[i]).needs_merge && (!synced[i].is_deleted
            || local_index(items, synced[i].guid) is Some)
}

/// Whether the local tree has something to merge: an item below the
/// synthetic root with a change that the server has not confirmed.
pub open spec fn has_local_changes(items: Seq<LocalItemModel>) -> bool {
    exists|i: int|
        0 <= i < items.len() && (#[trigger] items[i]).sync_change_counter > 0 && level_of(
            items,
            i,
        ) is Some
}

impl DbModel {
    /// Whether there is anything to merge: a change in the mirror, a change
    /// in the local tree, or a local deletion.
    pub open spec fn has_changes(self) -> bool {
        has_remote_changes(self.synced, self.bookmarks) || has_local_changes(self.bookmarks)
            || self.deleted.len() > 0
    }
}

fn any_remote_change(synced: &Vec<SyncedItem>, items: &Vec<LocalItem>) -> (r: bool)
    ensures
        r == has_remote_changes(synced.deep_view(), items.deep_view()),
{
    let ghost rows = synced.deep_view();
    let ghost all = items.deep_view();
    let mut i: usize = 0;
    while i < synced.len()
        invariant
            i <= synced.len(),
            rows == synced.deep_view(),
            all == items.deep_view(),
            forall|j: int|
                0 <= j < i ==> !((#[trigger] rows[j]).needs_merge && (!rows[j].is_deleted
                    || local_index(all, rows[j].guid) is Some)),
        decreases synced.len() - i,
    {
        if synced[i].needs_merge {
            if !synced[i].is_deleted || find_local(items, &synced[i].guid).is_some() {
                assert(rows[i as int].needs_merge);
                return true;
            }
        }
        i += 1;
    }
    false
}

fn any_local_change(items: &Vec<LocalItem>) -> (r: bool)
    ensures
        r == has_local_changes(items.deep_view()),
{
    let ghost all = items.deep_view();
    let mut i: usize = 0;
    while i < items.len()
        invariant
            i <= items.len(),
            all == items.deep_view(),
            forall|j: int|
                0 <= j < i ==> !((#[trigger] all[j]).sync_change_counter > 0 && level_of(all, j)
                    is Some),
        decreases items.len() - i,
    {
        if items[i].sync_change_counter > 0 && level(items, i).is_some() {
            assert(all[i as int].sync_change_counter > 0);
            return true;
        }
        i += 1;
    }
    false
}

impl BookmarksStore {
    /// Whether there is anything to merge.
    pub fn has_changes(&self) -> (r: bool)
        ensures
            r == self.db@.has_changes(),
    {
        any_remote_change(&self.db.synced, &self.db.bookmarks) || any_local_change(
            &self.db.bookmarks,
        ) || self.db.deleted.len() > 0
    }
}

} // verus!
