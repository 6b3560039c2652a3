//! Forgetting the sync state (`reset`) and deleting the local tree (`wipe`).

use vstd::prelude::*;
use crate::db::{find_tombstone, tombstone_index, DbModel, MetaModel};
use crate::guid::{is_root_guid, is_user_root_guid, lemma_root_guids_distinct, BookmarkRootGuid};
use crate::record::StoreSyncAssociation;
use crate::roots::create_synced_bookmark_roots;
use crate::rows::{LocalItem, LocalItemModel, Tombstone, TombstoneModel};
use crate::seqs::{lemma_filter_step, lemma_take_all};
use crate::store::BookmarksStore;
use crate::types::{SyncStatus, Timestamp};

verus! {

/// A local item as `reset` leaves it: changed, and new to the server.
pub open spec fn as_never_synced(b: LocalItemModel) -> LocalItemModel {
    LocalItemModel { sync_change_counter: 1, sync_status: SyncStatus::New, ..b }
}

/// The counter after one more change; it stops at the largest value.
pub open spec fn bumped(counter: u32) -> u32 {
    if counter < u32::MAX {
        (counter + 1) as u32
    } else {
        counter
    }
}

/// A root as `wipe` leaves it: a user root has one more change, because
/// its list of children is now empty.
pub open spec fn as_wiped_root(b: LocalItemModel) -> LocalItemModel {
    if is_user_root_guid(b.guid) {
        LocalItemModel { sync_change_counter: bumped(b.sync_change_counter), ..b }
    } else {
        b
    }
}

/// The property of being one of the five roots.
pub open spec fn is_a_root() -> spec_fn(LocalItemModel) -> bool {
    |b: LocalItemModel| is_root_guid(b.guid)
}

/// Whether `wipe` owes the server a tombstone for `b`: it is no root, and the
/// server has it.
pub open spec fn wipe_entombs(b: LocalItemModel) -> bool {
    !is_root_guid(b.guid) && b.sync_status == SyncStatus::Normal
}

/// The tombstones after `wipe` has gone through the first `n` local
/// items: one more for each that the server has and that had none.
pub open spec fn wiped_tombstones(
    deleted: Seq<TombstoneModel>,
    items: Seq<LocalItemModel>,
    now: i64,
    n: int,
) -> Seq<TombstoneModel>
    decreases n,
{
    if n <= 0 {
        deleted
    } else {
        let before = wiped_tombstones(deleted, items, now, n - 1);
        let b = items[n - 1];
        if wipe_entombs(b) && tombstone_index(before, b.guid) is None {
            before.push(TombstoneModel { guid: b.guid, date_removed: now })
        } else {
            before
        }
    }
}

impl DbModel {
    /// The store after `reset`: the mirror holds the five roots and nothing
    /// else, no tombstone is left, every local item counts as changed and as
    /// new to the server, the last sync is forgotten, and the sync ids are
    /// those of `assoc`.
    pub open spec fn reset(self, assoc: Option<(Seq<char>, Seq<char>)>) -> DbModel {
        DbModel {
            bookmarks: self.bookmarks.map_values(|b: LocalItemModel| as_never_synced(b)),
            deleted: Seq::empty(),
            synced: Seq::empty(),
            synced_structure: Seq::empty(),
            synced_tags: Seq::empty(),
            meta: MetaModel {
                last_sync: Some(0i64),
                global_sync_id: match assoc {
                    Some(ids) => Some(ids.0),
                    None => None,
                },
                collection_sync_id: match assoc {
                    Some(ids) => Some(ids.1),
                    None => None,
                },
            },
            ..self
        }.with_synced_roots()
    }

    /// The store after `wipe` at the time `now`: of the local tree only the
    /// roots are left, and each other item that the server has leaves a
    /// tombstone. The mirror and the time of the last sync stay.
    pub open spec fn wipe(self, now: i64) -> DbModel {
        DbModel {
            deleted: wiped_tombstones(self.deleted, self.bookmarks, now, self.bookmarks.len() as int),
            bookmarks: self.bookmarks.filter(is_a_root()).map_values(
                |b: LocalItemModel| as_wiped_root(b),
            ),
            ..self
        }.with_synced_roots()
    }
}

impl BookmarksStore {
    /// Removes all sync metadata, such that the next sync is treated as a
    /// first sync. This keeps all local items, but clears the mirror and the
    /// pending tombstones, and forgets the last sync time.
    pub fn reset(&mut self, assoc: &StoreSyncAssociation)
        ensures
            final(self).db@ == old(self).db@.reset(assoc.deep_view()),
            final(self).interruptee == old(self).interruptee,
            final(self).db@.local_tree_is_sound() == old(self).db@.local_tree_is_sound(),
            old(self).db@.has_unique_keys() ==> final(self).db@.has_unique_keys(),
    {
        proof {
            crate::soundness::lemma_reset_keeps_the_local_tree(self.db@, assoc.deep_view());
            if self.db@.has_unique_keys() {
                crate::keys::lemma_reset_keeps_the_keys_unique(self.db@, assoc.deep_view());
            }
        }
        let mut i: usize = 0;
        while i < self.db.bookmarks.len()
            invariant
                i <= self.db.bookmarks.len(),
                self.db.bookmarks.len() == old(self).db.bookmarks.len(),
                forall|j: int|
                    0 <= j < i ==> #[trigger] self.db.bookmarks[j].deep_view() == as_never_synced(
                        old(self).db.bookmarks[j].deep_view(),
                    ),
                forall|j: int|
                    i <= j < self.db.bookmarks.len() ==> self.db.bookmarks[j] == old(
                        self,
                    ).db.bookmarks[j],
                self.db.conn_type == old(self).db.conn_type,
                self.db.deleted == old(self).db.deleted,
                self.db.synced == old(self).db.synced,
                self.db.synced_structure == old(self).db.synced_structure,
                self.db.synced_tags == old(self).db.synced_tags,
                self.db.places == old(self).db.places,
                self.db.stale_frecencies == old(self).db.stale_frecencies,
                self.db.tags == old(self).db.tags,
                self.db.meta == old(self).db.meta,
                self.db.items_to_upload == old(self).db.items_to_upload,
                self.db.structure_to_upload == old(self).db.structure_to_upload,
                self.db.tags_to_upload == old(self).db.tags_to_upload,
                self.interruptee == old(self).interruptee,
            decreases self.db.bookmarks.len() - i,
        {
            self.db.bookmarks[i].sync_change_counter = 1;
            self.db.bookmarks[i].sync_status = SyncStatus::New;
            i += 1;
        }
        self.db.deleted = Vec::new();
        self.db.synced = Vec::new();
        self.db.synced_structure = Vec::new();
        self.db.synced_tags = Vec::new();
        self.db.meta.last_sync = Some(0);
        match assoc {
            StoreSyncAssociation::Disconnected => {
                self.db.meta.global_sync_id = None;
                self.db.meta.collection_sync_id = None;
            },
            StoreSyncAssociation::Connected(ids) => {
                self.db.meta.global_sync_id = Some(ids.global.clone());
                self.db.meta.collection_sync_id = Some(ids.coll.clone());
            },
        }
        proof {
            assert(self.db.bookmarks.deep_view() =~= old(self).db.bookmarks.deep_view().map_values(
                |b: LocalItemModel| as_never_synced(b),
            ));
            assert(self.db.deleted.deep_view() =~= Seq::empty());
            assert(self.db.synced.deep_view() =~= Seq::empty());
            assert(self.db.synced_structure.deep_view() =~= Seq::empty());
            assert(self.db.synced_tags.deep_view() =~= Seq::empty());
        }
        create_synced_bookmark_roots(&mut self.db);
    }

    /// Erases all local items but the roots. Unlike `reset`, this keeps the
    /// mirror until the next sync, and leaves a tombstone for every erased
    /// item that the server has. This also preserves the last sync time.
    pub fn wipe(&mut self, now: Timestamp)
        ensures
            final(self).db@ == old(self).db@.wipe(now.millis()),
            final(self).interruptee == old(self).interruptee,
            old(self).db@.has_unique_keys() ==> final(self).db@.has_unique_keys(),
    {
        proof {
            if self.db@.has_unique_keys() {
                crate::keys::lemma_wipe_keeps_the_keys_unique(self.db@, now.millis());
            }
        }
        entomb_wiped(&mut self.db.deleted, &self.db.bookmarks, now.as_millis_i64());
        self.db.bookmarks = wiped_items(&self.db.bookmarks);
        create_synced_bookmark_roots(&mut self.db);
    }
}

/// The roots among `items`, each as `wipe` leaves it.
fn wiped_items(items: &Vec<LocalItem>) -> (kept: Vec<LocalItem>)
    ensures
        kept.deep_view() == items.deep_view().filter(is_a_root()).map_values(
            |b: LocalItemModel| as_wiped_root(b),
        ),
{
    let ghost all = items.deep_view();
    let mut kept: Vec<LocalItem> = Vec::new();
    let mut i: usize = 0;
    while i < items.len()
        invariant
            i <= items.len(),
            all == items.deep_view(),
            kept.deep_view() == all.take(i as int).filter(is_a_root()).map_values(
                |b: LocalItemModel| as_wiped_root(b),
            ),
        decreases items.len() - i,
    {
        proof {
            lemma_filter_step(all, is_a_root(), i as int);
            lemma_root_guids_distinct();
        }
        let ghost kept_before = kept.deep_view();
        match BookmarkRootGuid::from_guid(items[i].guid.as_str()) {
            Some(root) => {
                let mut item = items[i].duplicate();
                if root != BookmarkRootGuid::Root && item.sync_change_counter < u32::MAX {
                    item.sync_change_counter = item.sync_change_counter + 1;
                }
                kept.push(item);
                assert(kept.deep_view() =~= kept_before.push(as_wiped_root(all[i as int])));
            },
            None => {},
        }
        assert(kept.deep_view() =~= all.take(i + 1).filter(is_a_root()).map_values(
            |b: LocalItemModel| as_wiped_root(b),
        ));
        i += 1;
    }
    proof {
        lemma_take_all(all);
    }
    kept
}

/// Leaves a tombstone for each of `items` that `wipe` erases and the server
/// has.
fn entomb_wiped(deleted: &mut Vec<Tombstone>, items: &Vec<LocalItem>, now: i64)
    ensures
        final(deleted).deep_view() == wiped_tombstones(
            old(deleted).deep_view(),
            items.deep_view(),
            now,
            items.len() as int,
        ),
{
    let ghost all = items.deep_view();
    let mut i: usize = 0;
    while i < items.len()
        invariant
            i <= items.len(),
            all == items.deep_view(),
            deleted.deep_view() == wiped_tombstones(old(deleted).deep_view(), all, now, i as int),
        decreases items.len() - i,
    {
        let ghost before = deleted.deep_view();
        let is_root = BookmarkRootGuid::from_guid(items[i].guid.as_str()).is_some();
        if !is_root && items[i].sync_status == SyncStatus::Normal {
            let guid = items[i].guid.clone();
            if find_tombstone(deleted, &guid).is_none() {
                deleted.push(Tombstone { guid, date_removed: now });
                assert(deleted.deep_view() =~= before.push(
                    TombstoneModel { guid: all[i as int].guid, date_removed: now },
                ));
            }
        }
        i += 1;
    }
}

} // verus!
