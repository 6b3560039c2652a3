//! After an upload: settling the change counters, dropping the tombstones
//! that went up, and writing what went up into the mirror.

use vstd::prelude::*;
use crate::db::{find_local_by_id, find_synced, local_by_id_index, synced_index, DbModel, PlacesDb};
use crate::error::ErrorKind;
use crate::guid::{guid_of_record_id, BookmarkRecordId};
use crate::rows::{
    LocalItem, LocalItemModel, StructureRow, StructureRowModel, SyncedItem, SyncedItemModel,
    SyncedTag, SyncedTagModel, Tombstone, TombstoneModel, UploadItem, UploadItemModel,
    UploadStructure, UploadStructureModel, UploadTag, UploadTagModel,
};
use crate::seqs::{lemma_filter_step, lemma_take_all};
use crate::store::BookmarksStore;
use crate::text::clone_opt_string;
use crate::types::{ServerTimestamp, SyncStatus, SyncedBookmarkKind, SyncedBookmarkValidity};

verus! {

/// A change counter less the changes that went up; it stops at zero.
pub open spec fn settled(counter: u32, uploaded: u32) -> u32 {
    if counter >= uploaded {
        (counter - uploaded) as u32
    } else {
        0
    }
}

/// Whether one of the record ids `records` stands for `guid`.
pub open spec fn names_guid(records: Seq<Seq<char>>, guid: Seq<char>) -> bool {
    exists|k: int| 0 <= k < records.len() && guid_of_record_id(#[trigger] records[k]) == guid
}

/// The local items after the staged item `u` went up: the item that `u` is
/// a snapshot of has as many changes less as were staged, and the server has
/// it.
pub open spec fn settled_items(items: Seq<LocalItemModel>, u: UploadItemModel) -> Seq<
    LocalItemModel,
> {
    match u.id {
        Some(id) => match local_by_id_index(items, id) {
            Some(i) => items.update(
                i,
                LocalItemModel {
                    sync_change_counter: settled(
                        items[i].sync_change_counter,
                        u.sync_change_counter,
                    ),
                    sync_status: SyncStatus::Normal,
                    ..items[i]
                },
            ),
            None => items,
        },
        None => items,
    }
}

/// The property of being a tombstone for another guid than `guid`.
pub open spec fn entombs_other(guid: Seq<char>) -> spec_fn(TombstoneModel) -> bool {
    |d: TombstoneModel| d.guid != guid
}

/// The mirror's row for what went up with the staged item `u`.
pub open spec fn uploaded_row(u: UploadItemModel, uploaded_at: i64) -> SyncedItemModel {
    SyncedItemModel {
        guid: u.guid,
        parent_guid: u.parent_guid,
        kind: match u.kind {
            Some(kind) => kind,
            None => SyncedBookmarkKind::Bookmark,
        },
        title: u.title,
        place_id: u.place_id,
        keyword: u.keyword,
        date_added: match u.date_added {
            Some(t) => t,
            None => 0,
        },
        server_modified: uploaded_at,
        needs_merge: false,
        is_deleted: u.is_deleted,
        validity: SyncedBookmarkValidity::Valid,
    }
}

/// The mirror with the row `row` in the place of the row of its guid, or at
/// the end where there was none.
pub open spec fn with_synced_row(synced: Seq<SyncedItemModel>, row: SyncedItemModel) -> Seq<
    SyncedItemModel,
> {
    match synced_index(synced, row.guid) {
        Some(j) => synced.update(j, row),
        None => synced.push(row),
    }
}

/// The property of listing a child of another folder than `guid`.
pub open spec fn lists_under_other(guid: Seq<char>) -> spec_fn(StructureRowModel) -> bool {
    |s: StructureRowModel| s.parent_guid != guid
}

/// The property of being a staged child of the folder with the key `id`.
pub open spec fn staged_under(id: Option<i64>) -> spec_fn(UploadStructureModel) -> bool {
    |s: UploadStructureModel| Some(s.parent_id) == id
}

/// The children that the mirror lists, with those of the folder `guid`
/// replaced by the children staged for it.
pub open spec fn with_uploaded_children(
    structure: Seq<StructureRowModel>,
    staged: Seq<UploadStructureModel>,
    u: UploadItemModel,
) -> Seq<StructureRowModel> {
    structure.filter(lists_under_other(u.guid)) + staged.filter(staged_under(u.id)).map_values(
        |s: UploadStructureModel|
            StructureRowModel { guid: s.guid, parent_guid: u.guid, position: s.position },
    )
}

/// The property of being a tag of another item than `guid`.
pub open spec fn tags_other_item(guid: Seq<char>) -> spec_fn(SyncedTagModel) -> bool {
    |t: SyncedTagModel| t.guid != guid
}

/// The property of being a staged tag of the item with the key `id`.
pub open spec fn staged_tag_of(id: Option<i64>) -> spec_fn(UploadTagModel) -> bool {
    |t: UploadTagModel| Some(t.id) == id
}

/// The mirror's tags, with those of the item `guid` replaced by the tags
/// staged for it.
pub open spec fn with_uploaded_tags(
    tags: Seq<SyncedTagModel>,
    staged: Seq<UploadTagModel>,
    u: UploadItemModel,
) -> Seq<SyncedTagModel> {
    tags.filter(tags_other_item(u.guid)) + staged.filter(staged_tag_of(u.id)).map_values(
        |t: UploadTagModel| SyncedTagModel { guid: u.guid, tag: t.tag },
    )
}

impl DbModel {
    /// The store after the staged item `u` went up at the server's time
    /// `uploaded_at`.
    pub open spec fn push_uploaded(self, u: UploadItemModel, uploaded_at: i64) -> DbModel {
        DbModel {
            bookmarks: settled_items(self.bookmarks, u),
            deleted: if u.is_deleted {
                self.deleted.filter(entombs_other(u.guid))
            } else {
                self.deleted
            },
            synced: with_synced_row(self.synced, uploaded_row(u, uploaded_at)),
            synced_structure: with_uploaded_children(
                self.synced_structure,
                self.structure_to_upload,
                u,
            ),
            synced_tags: with_uploaded_tags(self.synced_tags, self.tags_to_upload, u),
            ..self
        }
    }

    /// The store after those of the first `n` staged items went up that
    /// `records` names.
    pub open spec fn push_uploads(self, records: Seq<Seq<char>>, uploaded_at: i64, n: int) -> DbModel
        decreases n,
    {
        if n <= 0 {
            self
        } else {
            let before = self.push_uploads(records, uploaded_at, n - 1);
            if names_guid(records, self.items_to_upload[n - 1].guid) {
                before.push_uploaded(self.items_to_upload[n - 1], uploaded_at)
            } else {
                before
            }
        }
    }

    /// The store after the server has taken the records `records` at its
    /// time `uploaded_at`: what went up is settled, that time is the time of
    /// the last sync, and nothing is staged any more.
    pub open spec fn push_synced(self, records: Seq<Seq<char>>, uploaded_at: i64) -> DbModel {
        let pushed = self.push_uploads(records, uploaded_at, self.items_to_upload.len() as int);
        DbModel {
            meta: crate::db::MetaModel { last_sync: Some(uploaded_at), ..pushed.meta },
            items_to_upload: Seq::empty(),
            structure_to_upload: Seq::empty(),
            tags_to_upload: Seq::empty(),
            ..pushed
        }
    }
}

/// Whether one of the record ids `records` stands for `guid`.
pub fn record_ids_name(records: &Vec<String>, guid: &String) -> (r: bool)
    ensures
        r == names_guid(records.deep_view(), guid@),
{
    let mut k: usize = 0;
    while k < records.len()
        invariant
            k <= records.len(),
            forall|j: int|
                0 <= j < k ==> guid_of_record_id(#[trigger] records.deep_view()[j]) != guid@,
        decreases records.len() - k,
    {
        let candidate = BookmarkRecordId::from_payload_id(records[k].as_str());
        if candidate == *guid {
            assert(guid_of_record_id(records.deep_view()[k as int]) == guid@);
            return true;
        }
        k += 1;
    }
    false
}

fn settle_local(items: &mut Vec<LocalItem>, u: &UploadItem)
    ensures
        final(items).deep_view() == settled_items(old(items).deep_view(), u.deep_view()),
{
    let ghost start = items.deep_view();
    if let Some(id) = u.id {
        if let Some(i) = find_local_by_id(items, id) {
            let counter = items[i].sync_change_counter;
            let mut item = items[i].duplicate();
            item.sync_change_counter = if counter >= u.sync_change_counter {
                counter - u.sync_change_counter
            } else {
                0
            };
            item.sync_status = SyncStatus::Normal;
            items.set(i, item);
            assert(items.deep_view() =~= start.update(
                i as int,
                LocalItemModel {
                    sync_change_counter: settled(
                        start[i as int].sync_change_counter,
                        u.sync_change_counter,
                    ),
                    sync_status: SyncStatus::Normal,
                    ..start[i as int]
                },
            ));
        }
    }
}

/// Drops the tombstones for `guid`.
pub fn drop_tombstones(deleted: &mut Vec<Tombstone>, guid: &String)
    ensures
        final(deleted).deep_view() == old(deleted).deep_view().filter(entombs_other(guid@)),
{
    let ghost all = deleted.deep_view();
    let mut kept: Vec<Tombstone> = Vec::new();
    assert(kept.deep_view() =~= Seq::empty());
    let mut n: usize = 0;
    while n < deleted.len()
        invariant
            n <= deleted.len(),
            all == deleted.deep_view(),
            kept.deep_view() == all.take(n as int).filter(entombs_other(guid@)),
        decreases deleted.len() - n,
    {
        proof {
            lemma_filter_step(all, entombs_other(guid@), n as int);
        }
        let ghost before = kept.deep_view();
        if deleted[n].guid != *guid {
            kept.push(deleted[n].duplicate());
            assert(kept.deep_view() =~= before.push(all[n as int]));
        }
        n += 1;
    }
    proof {
        lemma_take_all(all);
    }
    *deleted = kept;
}

/// Puts `row` into the mirror, in the place of the row of its guid or at
/// the end.
pub fn upsert_synced(synced: &mut Vec<SyncedItem>, row: SyncedItem)
    ensures
        final(synced).deep_view() == with_synced_row(old(synced).deep_view(), row.deep_view()),
{
    let ghost start = synced.deep_view();
    match find_synced(synced, &row.guid) {
        Some(j) => {
            synced.set(j, row);
            assert(synced.deep_view() =~= start.update(j as int, row.deep_view()));
        },
        None => {
            synced.push(row);
            assert(synced.deep_view() =~= start.push(row.deep_view()));
        },
    }
}

fn replace_children(
    structure: &mut Vec<StructureRow>,
    staged: &Vec<UploadStructure>,
    u: &UploadItem,
)
    ensures
        final(structure).deep_view() == with_uploaded_children(
            old(structure).deep_view(),
            staged.deep_view(),
            u.deep_view(),
        ),
{
    let ghost all = structure.deep_view();
    let ghost children = staged.deep_view();
    let mut out: Vec<StructureRow> = Vec::new();
    assert(out.deep_view() =~= Seq::empty());
    let mut n: usize = 0;
    while n < structure.len()
        invariant
            n <= structure.len(),
            all == structure.deep_view(),
            out.deep_view() == all.take(n as int).filter(lists_under_other(u.guid@)),
        decreases structure.len() - n,
    {
        proof {
            lemma_filter_step(all, lists_under_other(u.guid@), n as int);
        }
        let ghost before = out.deep_view();
        if structure[n].parent_guid != u.guid {
            out.push(structure[n].duplicate());
            assert(out.deep_view() =~= before.push(all[n as int]));
        }
        n += 1;
    }
    proof {
        lemma_take_all(all);
    }
    let ghost kept = out.deep_view();
    assert(out.deep_view() =~= kept + Seq::<StructureRowModel>::empty());
    let mut m: usize = 0;
    while m < staged.len()
        invariant
            m <= staged.len(),
            children == staged.deep_view(),
            out.deep_view() == kept + children.take(m as int).filter(
                staged_under(u.id),
            ).map_values(
                |s: UploadStructureModel|
                    StructureRowModel { guid: s.guid, parent_guid: u.guid@, position: s.position },
            ),
        decreases staged.len() - m,
    {
        proof {
            lemma_filter_step(children, staged_under(u.id), m as int);
        }
        let ghost before = out.deep_view();
        let hit = match u.id {
            Some(id) => staged[m].parent_id == id,
            None => false,
        };
        if hit {
            out.push(
                StructureRow {
                    guid: staged[m].guid.clone(),
                    parent_guid: u.guid.clone(),
                    position: staged[m].position,
                },
            );
            assert(out.deep_view() =~= before.push(
                StructureRowModel {
                    guid: children[m as int].guid,
                    parent_guid: u.guid@,
                    position: children[m as int].position,
                },
            ));
        }
        assert(out.deep_view() =~= kept + children.take(m + 1).filter(
            staged_under(u.id),
        ).map_values(
            |s: UploadStructureModel|
                StructureRowModel { guid: s.guid, parent_guid: u.guid@, position: s.position },
        ));
        m += 1;
    }
    proof {
        lemma_take_all(children);
    }
    *structure = out;
}

fn replace_tags(tags: &mut Vec<SyncedTag>, staged: &Vec<UploadTag>, u: &UploadItem)
    ensures
        final(tags).deep_view() == with_uploaded_tags(
            old(tags).deep_view(),
            staged.deep_view(),
            u.deep_view(),
        ),
{
    let ghost all = tags.deep_view();
    let ghost mine = staged.deep_view();
    let mut out: Vec<SyncedTag> = Vec::new();
    assert(out.deep_view() =~= Seq::empty());
    let mut n: usize = 0;
    while n < tags.len()
        invariant
            n <= tags.len(),
            all == tags.deep_view(),
            out.deep_view() == all.take(n as int).filter(tags_other_item(u.guid@)),
        decreases tags.len() - n,
    {
        proof {
            lemma_filter_step(all, tags_other_item(u.guid@), n as int);
        }
        let ghost before = out.deep_view();
        if tags[n].guid != u.guid {
            out.push(tags[n].duplicate());
            assert(out.deep_view() =~= before.push(all[n as int]));
        }
        n += 1;
    }
    proof {
        lemma_take_all(all);
    }
    let ghost kept = out.deep_view();
    assert(out.deep_view() =~= kept + Seq::<SyncedTagModel>::empty());
    let mut m: usize = 0;
    while m < staged.len()
        invariant
            m <= staged.len(),
            mine == staged.deep_view(),
            out.deep_view() == kept + mine.take(m as int).filter(staged_tag_of(u.id)).map_values(
                |t: UploadTagModel| SyncedTagModel { guid: u.guid@, tag: t.tag },
            ),
        decreases staged.len() - m,
    {
        proof {
            lemma_filter_step(mine, staged_tag_of(u.id), m as int);
        }
        let ghost before = out.deep_view();
        let hit = match u.id {
            Some(id) => staged[m].id == id,
            None => false,
        };
        if hit {
            out.push(SyncedTag { guid: u.guid.clone(), tag: staged[m].tag.clone() });
            assert(out.deep_view() =~= before.push(
                SyncedTagModel { guid: u.guid@, tag: mine[m as int].tag },
            ));
        }
        assert(out.deep_view() =~= kept + mine.take(m + 1).filter(staged_tag_of(u.id)).map_values(
            |t: UploadTagModel| SyncedTagModel { guid: u.guid@, tag: t.tag },
        ));
        m += 1;
    }
    proof {
        lemma_take_all(mine);
    }
    *tags = out;
}

fn uploaded_row_of(u: &UploadItem, uploaded_at: i64) -> (row: SyncedItem)
    ensures
        row.deep_view() == uploaded_row(u.deep_view(), uploaded_at),
{
    SyncedItem {
        guid: u.guid.clone(),
        parent_guid: clone_opt_string(&u.parent_guid),
        kind: match u.kind {
            Some(kind) => kind,
            None => SyncedBookmarkKind::Bookmark,
        },
        title: clone_opt_string(&u.title),
        place_id: u.place_id,
        keyword: clone_opt_string(&u.keyword),
        date_added: match u.date_added {
            Some(t) => t,
            None => 0,
        },
        server_modified: uploaded_at,
        needs_merge: false,
        is_deleted: u.is_deleted,
        validity: SyncedBookmarkValidity::Valid,
    }
}

fn push_one(db: &mut PlacesDb, n: usize, uploaded_at: i64)
    requires
        n < old(db).items_to_upload.len(),
    ensures
        final(db)@ == old(db)@.push_uploaded(old(db)@.items_to_upload[n as int], uploaded_at),
{
    settle_local(&mut db.bookmarks, &db.items_to_upload[n]);
    if db.items_to_upload[n].is_deleted {
        drop_tombstones(&mut db.deleted, &db.items_to_upload[n].guid);
    }
    upsert_synced(&mut db.synced, uploaded_row_of(&db.items_to_upload[n], uploaded_at));
    replace_children(&mut db.synced_structure, &db.structure_to_upload, &db.items_to_upload[n]);
    replace_tags(&mut db.synced_tags, &db.tags_to_upload, &db.items_to_upload[n]);
}

/// What is staged stays as it is while uploads are pushed.
pub proof fn lemma_push_keeps_staged(db: DbModel, records: Seq<Seq<char>>, uploaded_at: i64, n: int)
    ensures
        db.push_uploads(records, uploaded_at, n).items_to_upload == db.items_to_upload,
        db.push_uploads(records, uploaded_at, n).structure_to_upload == db.structure_to_upload,
        db.push_uploads(records, uploaded_at, n).tags_to_upload == db.tags_to_upload,
    decreases n,
{
    if n > 0 {
        lemma_push_keeps_staged(db, records, uploaded_at, n - 1);
    }
}

impl BookmarksStore {
    /// Decrements the change counter, updates the sync status, and cleans up
    /// tombstones for successfully synced items, writes them back to the
    /// mirror, and fast-forwards the last sync time, so that the next sync
    /// does not download what this one uploaded.
    pub fn push_synced_items(&mut self, uploaded_at: ServerTimestamp, records_synced: &Vec<String>) -> (r:
        Result<(), ErrorKind>)
        ensures
            final(self).interruptee == old(self).interruptee,
            old(self).interruptee.interrupted ==> r == Err::<(), ErrorKind>(ErrorKind::Interrupted)
                && final(self).db@ == old(self).db@,
            !old(self).interruptee.interrupted ==> r is Ok && final(self).db@ == old(
                self,
            ).db@.push_synced(records_synced.deep_view(), uploaded_at.0),
            old(self).db@.has_unique_keys() ==> final(self).db@.has_unique_keys(),
    {
        proof {
            if self.db@.has_unique_keys() {
                crate::keys::lemma_push_synced_keeps_the_keys_unique(
                    self.db@,
                    records_synced.deep_view(),
                    uploaded_at.0,
                );
            }
        }
        if self.interruptee.was_interrupted() {
            return Err(ErrorKind::Interrupted);
        }
        let ghost start = self.db@;
        let ghost records = records_synced.deep_view();
        let mut n: usize = 0;
        while n < self.db.items_to_upload.len()
            invariant
                n <= self.db.items_to_upload.len(),
                records == records_synced.deep_view(),
                self.interruptee == old(self).interruptee,
                self.db@ == start.push_uploads(records, uploaded_at.0, n as int),
                self.db.items_to_upload.deep_view() == start.items_to_upload,
                self.db.items_to_upload.len() == start.items_to_upload.len(),
            decreases self.db.items_to_upload.len() - n,
        {
            proof {
                lemma_push_keeps_staged(start, records, uploaded_at.0, n as int);
                lemma_push_keeps_staged(start, records, uploaded_at.0, n as int + 1);
            }
            assert(self.db.items_to_upload.deep_view()[n as int] == start.items_to_upload[n as int]);
            if record_ids_name(records_synced, &self.db.items_to_upload[n].guid) {
                push_one(&mut self.db, n, uploaded_at.0);
            }
            assert(self.db@ == start.push_uploads(records, uploaded_at.0, n as int + 1));
            assert(self.db.items_to_upload.deep_view().len() == self.db.items_to_upload.len());
            n += 1;
        }
        proof {
            lemma_push_keeps_staged(start, records, uploaded_at.0, start.items_to_upload.len() as int);
        }
        self.db.meta.last_sync = Some(uploaded_at.0);
        self.db.items_to_upload = Vec::new();
        self.db.structure_to_upload = Vec::new();
        self.db.tags_to_upload = Vec::new();
        assert(self.db.items_to_upload.deep_view() =~= Seq::empty());
        assert(self.db.structure_to_upload.deep_view() =~= Seq::empty());
        assert(self.db.tags_to_upload.deep_view() =~= Seq::empty());
        Ok(())
    }
}

} // verus!
