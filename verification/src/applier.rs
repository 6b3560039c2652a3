//! Applying a merged tree to the local tree: taking over what the remote
//! side won, putting the children of each folder in their merged order, and
//! removing what the merge deleted.

use vstd::prelude::*;
use crate::db::{
    find_local, find_place_by_id, find_stale, find_synced, find_tombstone, local_index,
    place_by_id_index, stale_index, synced_index, tombstone_index, DbModel, PlacesDb,
};
use crate::error::ErrorKind;
use crate::finalize::{drop_tombstones, entombs_other};
use crate::guid::{has_query_scheme, is_query_url, is_root_guid, root_guid, BookmarkRootGuid};
use crate::rows::{
    LocalItem, LocalItemModel, MergedRow, MergedRowModel, Place, PlaceModel, RemovalRow,
    RemovalRowModel, StaleFrecency, StaleFrecencyModel, SyncedItem, SyncedItemModel, SyncedTag,
    SyncedTagModel, TagRelation, TagRelationModel, Tombstone, TombstoneModel,
};
use crate::seqs::{lemma_filter_step, lemma_take_all};
use crate::store::BookmarksStore;
use crate::text::clone_opt_string;
use crate::types::{BookmarkType, SyncStatus, Timestamp};

verus! {

/// The stale queue with the place `place_id` added at the time `now`, where
/// such a place exists, is no query and is not queued yet.
pub open spec fn with_stale(
    stale: Seq<StaleFrecencyModel>,
    places: Seq<PlaceModel>,
    place_id: Option<i64>,
    now: i64,
) -> Seq<StaleFrecencyModel> {
    match place_id {
        Some(id) => match place_by_id_index(places, id) {
            Some(i) => if !is_query_url(places[i].url) && stale_index(stale, id) is None {
                stale.push(StaleFrecencyModel { place_id: id, stale_at: now })
            } else {
                stale
            },
            None => stale,
        },
        None => stale,
    }
}

/// Queues the place `place_id` for a new frecency.
pub fn mark_stale(
    stale: &mut Vec<StaleFrecency>,
    places: &Vec<Place>,
    place_id: Option<i64>,
    now: i64,
)
    ensures
        final(stale).deep_view() == with_stale(
            old(stale).deep_view(),
            places.deep_view(),
            place_id,
            now,
        ),
{
    if let Some(id) = place_id {
        if let Some(i) = find_place_by_id(places, id) {
            if !has_query_scheme(places[i].url.as_str()) && find_stale(stale, id).is_none() {
                stale.push(StaleFrecency { place_id: id, stale_at: now });
                assert(stale.deep_view() =~= old(stale).deep_view().push(
                    StaleFrecencyModel { place_id: id, stale_at: now },
                ));
            }
        }
    }
}

/// The property of being a tag on another place than `id`.
pub open spec fn tags_other_place(id: i64) -> spec_fn(TagRelationModel) -> bool {
    |t: TagRelationModel| t.place_id != id
}

/// The property of being a tag of the mirror's item `guid`.
pub open spec fn tags_synced_item(guid: Seq<char>) -> spec_fn(SyncedTagModel) -> bool {
    |t: SyncedTagModel| t.guid == guid
}

/// The tags with those of the place `id` replaced by the tags that the
/// mirror has for the item `guid`.
pub open spec fn with_tags_of(
    tags: Seq<TagRelationModel>,
    synced_tags: Seq<SyncedTagModel>,
    guid: Seq<char>,
    id: i64,
) -> Seq<TagRelationModel> {
    tags.filter(tags_other_place(id)) + synced_tags.filter(tags_synced_item(guid)).map_values(
        |t: SyncedTagModel| TagRelationModel { place_id: id, tag: t.tag },
    )
}

/// Gives the place `id` the tags that the mirror has for the item `guid`.
pub fn take_tags(tags: &mut Vec<TagRelation>, synced_tags: &Vec<SyncedTag>, guid: &String, id: i64)
    ensures
        final(tags).deep_view() == with_tags_of(
            old(tags).deep_view(),
            synced_tags.deep_view(),
            guid@,
            id,
        ),
{
    let ghost before = tags.deep_view();
    let ghost mirror = synced_tags.deep_view();
    let mut out: Vec<TagRelation> = Vec::new();
    let mut i: usize = 0;
    while i < tags.len()
        invariant
            i <= tags.len(),
            before == tags.deep_view(),
            out.deep_view() == before.take(i as int).filter(tags_other_place(id)),
        decreases tags.len() - i,
    {
        proof {
            lemma_filter_step(before, tags_other_place(id), i as int);
        }
        let ghost out_before = out.deep_view();
        if tags[i].place_id != id {
            out.push(tags[i].duplicate());
            assert(out.deep_view() =~= out_before.push(before[i as int]));
        }
        i += 1;
    }
    proof {
        lemma_take_all(before);
    }
    let ghost kept = out.deep_view();
    let mut j: usize = 0;
    while j < synced_tags.len()
        invariant
            j <= synced_tags.len(),
            mirror == synced_tags.deep_view(),
            out.deep_view() == kept + mirror.take(j as int).filter(
                tags_synced_item(guid@),
            ).map_values(|t: SyncedTagModel| TagRelationModel { place_id: id, tag: t.tag }),
        decreases synced_tags.len() - j,
    {
        proof {
            lemma_filter_step(mirror, tags_synced_item(guid@), j as int);
        }
        let ghost out_before = out.deep_view();
        if synced_tags[j].guid == *guid {
            out.push(TagRelation { place_id: id, tag: synced_tags[j].tag.clone() });
            assert(out.deep_view() =~= out_before.push(
                TagRelationModel { place_id: id, tag: mirror[j as int].tag },
            ));
        }
        assert(out.deep_view() =~= kept + mirror.take(j + 1).filter(
            tags_synced_item(guid@),
        ).map_values(|t: SyncedTagModel| TagRelationModel { place_id: id, tag: t.tag }));
        j += 1;
    }
    proof {
        lemma_take_all(mirror);
    }
    *tags = out;
}

/// The largest key among the local items, or 0 where there is none above.
pub open spec fn max_local_id(items: Seq<LocalItemModel>) -> int
    decreases items.len(),
{
    if items.len() == 0 {
        0
    } else {
        let rest = max_local_id(items.drop_last());
        if items.last().id > rest {
            items.last().id as int
        } else {
            rest
        }
    }
}

/// The largest key among the local items.
pub fn largest_local_id(items: &Vec<LocalItem>) -> (r: i64)
    ensures
        r == max_local_id(items.deep_view()),
        r >= 0,
{
    let ghost all = items.deep_view();
    let mut max: i64 = 0;
    let mut i: usize = 0;
    while i < items.len()
        invariant
            i <= items.len(),
            all == items.deep_view(),
            max == max_local_id(all.take(i as int)),
            max >= 0,
        decreases items.len() - i,
    {
        assert(all.take(i + 1).drop_last() =~= all.take(i as int));
        if items[i].id > max {
            max = items[i].id;
        }
        i += 1;
    }
    proof {
        lemma_take_all(all);
    }
    max
}

/// The smaller of two times.
pub open spec fn earlier(a: i64, b: i64) -> i64 {
    if a <= b {
        a
    } else {
        b
    }
}

/// A change counter that shows a pending upload where `should_upload` asks
/// for one.
pub open spec fn flagged(counter: u32, should_upload: bool) -> u32 {
    if should_upload && counter == 0 {
        1
    } else {
        counter
    }
}

/// The local item `b` with the content of the mirror's row `v`, under the
/// guid that the merge gave it. The older of the two creation dates stays.
pub open spec fn with_remote_content(
    b: LocalItemModel,
    v: SyncedItemModel,
    r: MergedRowModel,
    now: i64,
) -> LocalItemModel {
    LocalItemModel {
        guid: r.merged_guid,
        typ: match v.kind.local_type() {
            Some(t) => t,
            None => b.typ,
        },
        title: v.title,
        place_id: v.place_id,
        date_added: earlier(b.date_added, v.date_added),
        last_modified: now,
        sync_change_counter: if r.should_upload {
            1
        } else {
            0
        },
        sync_status: SyncStatus::Normal,
        ..b
    }
}

/// A new local item for the mirror's row `v`. Its parent comes with the
/// merged structure.
pub open spec fn new_from_remote(
    id: i64,
    typ: BookmarkType,
    v: SyncedItemModel,
    r: MergedRowModel,
    now: i64,
) -> LocalItemModel {
    LocalItemModel {
        id,
        guid: r.merged_guid,
        parent: None,
        position: r.position,
        typ,
        title: v.title,
        place_id: v.place_id,
        date_added: v.date_added,
        last_modified: now,
        sync_change_counter: if r.should_upload {
            1
        } else {
            0
        },
        sync_status: SyncStatus::Normal,
    }
}

/// The index of the local side of a merged row among the local items.
pub open spec fn local_side(items: Seq<LocalItemModel>, r: MergedRowModel) -> Option<int> {
    match r.local_guid {
        Some(guid) => local_index(items, guid),
        None => None,
    }
}

/// The index of the remote side of a merged row in the mirror.
pub open spec fn remote_side(synced: Seq<SyncedItemModel>, r: MergedRowModel) -> Option<int> {
    match r.remote_guid {
        Some(guid) => synced_index(synced, guid),
        None => None,
    }
}

/// The mirror with the row at `i`, if there is one, flagged as merged.
pub open spec fn with_merged_flag(synced: Seq<SyncedItemModel>, i: Option<int>) -> Seq<
    SyncedItemModel,
> {
    match i {
        Some(i) => synced.update(i, SyncedItemModel { needs_merge: false, ..synced[i] }),
        None => synced,
    }
}

/// The local items after one merged row has put its item in its place:
/// below the merged parent, at the merged position. The roots stay where
/// they are, and so does an item that has no local row, or whose parent has
/// none.
pub open spec fn placed_item(items: Seq<LocalItemModel>, r: MergedRowModel) -> Seq<LocalItemModel> {
    if r.merged_guid == root_guid() || r.merged_parent_guid == root_guid() {
        items
    } else {
        match (local_index(items, r.merged_guid), local_index(items, r.merged_parent_guid)) {
            (Some(i), Some(p)) => items.update(
                i,
                LocalItemModel { parent: Some(items[p].id), position: r.position, ..items[i] },
            ),
            _ => items,
        }
    }
}

/// The local items after the first `n` merged rows have put their items in
/// their places.
pub open spec fn placed_items(items: Seq<LocalItemModel>, rows: Seq<MergedRowModel>, n: int) -> Seq<
    LocalItemModel,
>
    decreases n,
{
    if n <= 0 {
        items
    } else {
        placed_item(placed_items(items, rows, n - 1), rows[n - 1])
    }
}

impl DbModel {
    /// The store after one merged row was applied.
    ///
    /// Where the remote side is taken, the local item gets its content, or a
    /// new local item is made for it; the places concerned are queued for a
    /// new frecency and the item's URL gets the tags of the remote side.
    /// Where the local side stays, it is flagged for upload if the row asks
    /// for that. Either way the local item has the merged guid afterwards,
    /// the remote side no longer needs a merge, and no tombstone is left for
    /// the merged guid: the item lives.
    pub open spec fn merge_item(self, r: MergedRowModel, now: i64) -> DbModel {
        DbModel {
            deleted: self.deleted.filter(entombs_other(r.merged_guid)),
            ..self.merge_content(r, now)
        }
    }

    /// The store after one merged row was applied, but for the tombstones.
    pub open spec fn merge_content(self, r: MergedRowModel, now: i64) -> DbModel {
        let local = local_side(self.bookmarks, r);
        let remote = remote_side(self.synced, r);
        let synced = with_merged_flag(self.synced, remote);
        match (local, remote) {
            (Some(i), Some(j)) if r.use_remote => {
                let b = self.bookmarks[i];
                let v = self.synced[j];
                let changed = b.place_id != v.place_id;
                DbModel {
                    bookmarks: self.bookmarks.update(i, with_remote_content(b, v, r, now)),
                    synced,
                    stale_frecencies: if changed {
                        with_stale(
                            with_stale(self.stale_frecencies, self.places, b.place_id, now),
                            self.places,
                            v.place_id,
                            now,
                        )
                    } else {
                        self.stale_frecencies
                    },
                    tags: match v.place_id {
                        Some(p) => with_tags_of(self.tags, self.synced_tags, v.guid, p),
                        None => self.tags,
                    },
                    ..self
                }
            },
            (Some(i), _) => {
                let b = self.bookmarks[i];
                DbModel {
                    bookmarks: self.bookmarks.update(
                        i,
                        LocalItemModel {
                            guid: r.merged_guid,
                            sync_change_counter: flagged(b.sync_change_counter, r.should_upload),
                            ..b
                        },
                    ),
                    synced,
                    ..self
                }
            },
            (None, Some(j)) if r.use_remote && self.synced[j].kind.local_type() is Some => {
                let v = self.synced[j];
                DbModel {
                    bookmarks: self.bookmarks.push(
                        new_from_remote(
                            (max_local_id(self.bookmarks) + 1) as i64,
                            v.kind.local_type().unwrap(),
                            v,
                            r,
                            now,
                        ),
                    ),
                    synced,
                    stale_frecencies: with_stale(
                        self.stale_frecencies,
                        self.places,
                        v.place_id,
                        now,
                    ),
                    tags: match v.place_id {
                        Some(p) => with_tags_of(self.tags, self.synced_tags, v.guid, p),
                        None => self.tags,
                    },
                    ..self
                }
            },
            _ => DbModel { synced, ..self },
        }
    }

    /// The store after the first `n` merged rows were applied.
    pub open spec fn merge_items(self, rows: Seq<MergedRowModel>, now: i64, n: int) -> DbModel
        decreases n,
    {
        if n <= 0 {
            self
        } else {
            self.merge_items(rows, now, n - 1).merge_item(rows[n - 1], now)
        }
    }

    /// The store after every merged row has put its item in its place.
    pub open spec fn place_items(self, rows: Seq<MergedRowModel>) -> DbModel {
        DbModel { bookmarks: placed_items(self.bookmarks, rows, rows.len() as int), ..self }
    }

    /// The store after one deletion was applied. The local item, unless it
    /// is a root, is gone, and its place is queued for a new frecency. A
    /// deletion that the server has yet to hear of leaves a tombstone;
    /// one that came from the server no longer needs a merge.
    pub open spec fn remove_item(self, d: RemovalRowModel, now: i64) -> DbModel {
        let found = if is_root_guid(d.guid) {
            None
        } else {
            local_index(self.bookmarks, d.guid)
        };
        DbModel {
            bookmarks: match found {
                Some(i) => self.bookmarks.remove(i),
                None => self.bookmarks,
            },
            stale_frecencies: match found {
                Some(i) => with_stale(
                    self.stale_frecencies,
                    self.places,
                    self.bookmarks[i].place_id,
                    now,
                ),
                None => self.stale_frecencies,
            },
            deleted: if d.should_upload_tombstone && tombstone_index(self.deleted, d.guid) is None {
                self.deleted.push(TombstoneModel { guid: d.guid, date_removed: now })
            } else {
                self.deleted
            },
            synced: if d.should_upload_tombstone {
                self.synced
            } else {
                with_merged_flag(self.synced, synced_index(self.synced, d.guid))
            },
            ..self
        }
    }

    /// The store after the first `n` deletions were applied.
    pub open spec fn remove_items(self, deletions: Seq<RemovalRowModel>, now: i64, n: int) -> DbModel
        decreases n,
    {
        if n <= 0 {
            self
        } else {
            self.remove_items(deletions, now, n - 1).remove_item(deletions[n - 1], now)
        }
    }

    /// The store after a merged tree was applied: first every item gets its
    /// merged content and guid, then every item its merged place, then the
    /// deletions are made.
    pub open spec fn apply_merged(
        self,
        rows: Seq<MergedRowModel>,
        deletions: Seq<RemovalRowModel>,
        now: i64,
    ) -> DbModel {
        self.merge_items(rows, now, rows.len() as int).place_items(
            rows,
        ).remove_items(deletions, now, deletions.len() as int)
    }

    /// Whether the local tree has keys left for one new item per merged row.
    pub open spec fn has_room_for(self, rows: Seq<MergedRowModel>) -> bool {
        max_local_id(self.bookmarks) + rows.len() <= i64::MAX
    }
}

/// Each row applied makes at most one new item, with the next key.
pub proof fn lemma_merge_items_ids(db: DbModel, rows: Seq<MergedRowModel>, now: i64, n: int)
    requires
        0 <= n <= rows.len(),
        max_local_id(db.bookmarks) + rows.len() <= i64::MAX,
    ensures
        max_local_id(db.merge_items(rows, now, n).bookmarks) <= max_local_id(db.bookmarks) + n,
    decreases n,
{
    if n > 0 {
        lemma_merge_items_ids(db, rows, now, n - 1);
        let mid = db.merge_items(rows, now, n - 1);
        let r = rows[n - 1];
        let after = mid.merge_content(r, now);
        let local = local_side(mid.bookmarks, r);
        let remote = remote_side(mid.synced, r);
        if local is Some {
            crate::seqs::lemma_first_index(
                mid.bookmarks,
                crate::db::local_has_guid(r.local_guid.unwrap()),
            );
        }
        match (local, remote) {
            (Some(i), Some(j)) if r.use_remote => {
                lemma_max_id_update(mid.bookmarks, i, after.bookmarks[i]);
            },
            (Some(i), _) => {
                lemma_max_id_update(mid.bookmarks, i, after.bookmarks[i]);
            },
            (None, Some(j)) if r.use_remote && mid.synced[j].kind.local_type() is Some => {
                assert(after.bookmarks.drop_last() =~= mid.bookmarks);
            },
            _ => {},
        }
    }
}

/// Changing an item without changing its key leaves the largest key as it
/// was.
pub proof fn lemma_max_id_update(items: Seq<LocalItemModel>, i: int, b: LocalItemModel)
    requires
        0 <= i < items.len(),
        b.id == items[i].id,
    ensures
        max_local_id(items.update(i, b)) == max_local_id(items),
    decreases items.len(),
{
    let changed = items.update(i, b);
    if i == items.len() - 1 {
        assert(changed.drop_last() =~= items.drop_last());
    } else {
        lemma_max_id_update(items.drop_last(), i, b);
        assert(changed.drop_last() =~= items.drop_last().update(i, b));
    }
}

/// Flags the mirror's row at `i`, if there is one, as merged.
fn flag_merged(synced: &mut Vec<SyncedItem>, i: Option<usize>)
    requires
        i matches Some(j) ==> j < old(synced).len(),
    ensures
        final(synced).deep_view() == with_merged_flag(
            old(synced).deep_view(),
            match i {
                Some(j) => Some(j as int),
                None => None,
            },
        ),
{
    if let Some(j) = i {
        synced[j].needs_merge = false;
        assert(synced.deep_view() =~= old(synced).deep_view().update(
            j as int,
            SyncedItemModel { needs_merge: false, ..old(synced).deep_view()[j as int] },
        ));
    }
}

/// The index of a merged row's remote side in the mirror.
fn find_remote_side(synced: &Vec<SyncedItem>, r: &MergedRow) -> (found: Option<usize>)
    ensures
        found matches Some(j) ==> j < synced.len(),
        remote_side(synced.deep_view(), r.deep_view()) == (match found {
            Some(j) => Some(j as int),
            None => None,
        }),
{
    match &r.remote_guid {
        Some(guid) => find_synced(synced, guid),
        None => None,
    }
}

/// The index of a merged row's local side among the local items.
fn find_local_side(items: &Vec<LocalItem>, r: &MergedRow) -> (found: Option<usize>)
    ensures
        found matches Some(i) ==> i < items.len(),
        local_side(items.deep_view(), r.deep_view()) == (match found {
            Some(i) => Some(i as int),
            None => None,
        }),
{
    match &r.local_guid {
        Some(guid) => find_local(items, guid),
        None => None,
    }
}

/// Applies one merged row.
fn merge_one(db: &mut PlacesDb, r: &MergedRow, now: i64)
    requires
        max_local_id(old(db).bookmarks.deep_view()) < i64::MAX,
    ensures
        final(db)@ == old(db)@.merge_item(r.deep_view(), now),
{
    merge_content_of(db, r, now);
    drop_tombstones(&mut db.deleted, &r.merged_guid);
}

/// Applies one merged row, but for the tombstones.
fn merge_content_of(db: &mut PlacesDb, r: &MergedRow, now: i64)
    requires
        max_local_id(old(db).bookmarks.deep_view()) < i64::MAX,
    ensures
        final(db)@ == old(db)@.merge_content(r.deep_view(), now),
{
    let ghost start = db@;
    let ghost row = r.deep_view();
    let local = find_local_side(&db.bookmarks, r);
    let remote = find_remote_side(&db.synced, r);
    match (local, remote) {
        (Some(i), Some(j)) => {
            if r.use_remote {
                let old_place = db.bookmarks[i].place_id;
                let new_place = db.synced[j].place_id;
                let typ = match db.synced[j].kind.to_local_type() {
                    Some(t) => t,
                    None => db.bookmarks[i].typ,
                };
                let date_added = if db.bookmarks[i].date_added <= db.synced[j].date_added {
                    db.bookmarks[i].date_added
                } else {
                    db.synced[j].date_added
                };
                db.bookmarks[i].guid = r.merged_guid.clone();
                db.bookmarks[i].typ = typ;
                db.bookmarks[i].title = clone_opt_string(&db.synced[j].title);
                db.bookmarks[i].place_id = new_place;
                db.bookmarks[i].date_added = date_added;
                db.bookmarks[i].last_modified = now;
                db.bookmarks[i].sync_change_counter = if r.should_upload {
                    1
                } else {
                    0
                };
                db.bookmarks[i].sync_status = SyncStatus::Normal;
                assert(db.bookmarks.deep_view() =~= start.bookmarks.update(
                    i as int,
                    with_remote_content(
                        start.bookmarks[i as int],
                        start.synced[j as int],
                        row,
                        now,
                    ),
                ));
                if old_place != new_place {
                    mark_stale(&mut db.stale_frecencies, &db.places, old_place, now);
                    mark_stale(&mut db.stale_frecencies, &db.places, new_place, now);
                }
                if let Some(p) = new_place {
                    let guid = db.synced[j].guid.clone();
                    take_tags(&mut db.tags, &db.synced_tags, &guid, p);
                }
                flag_merged(&mut db.synced, remote);
            } else {
                db.bookmarks[i].guid = r.merged_guid.clone();
                if r.should_upload && db.bookmarks[i].sync_change_counter == 0 {
                    db.bookmarks[i].sync_change_counter = 1;
                }
                assert(db.bookmarks.deep_view() =~= start.bookmarks.update(
                    i as int,
                    LocalItemModel {
                        guid: row.merged_guid,
                        sync_change_counter: flagged(
                            start.bookmarks[i as int].sync_change_counter,
                            row.should_upload,
                        ),
                        ..start.bookmarks[i as int]
                    },
                ));
                flag_merged(&mut db.synced, remote);
            }
        },
        (Some(i), None) => {
            db.bookmarks[i].guid = r.merged_guid.clone();
            if r.should_upload && db.bookmarks[i].sync_change_counter == 0 {
                db.bookmarks[i].sync_change_counter = 1;
            }
            assert(db.bookmarks.deep_view() =~= start.bookmarks.update(
                i as int,
                LocalItemModel {
                    guid: row.merged_guid,
                    sync_change_counter: flagged(
                        start.bookmarks[i as int].sync_change_counter,
                        row.should_upload,
                    ),
                    ..start.bookmarks[i as int]
                },
            ));
        },
        (None, Some(j)) => {
            let typ = db.synced[j].kind.to_local_type();
            if r.use_remote && typ.is_some() {
                let id = largest_local_id(&db.bookmarks) + 1;
                let place_id = db.synced[j].place_id;
                let item = LocalItem {
                    id,
                    guid: r.merged_guid.clone(),
                    parent: None,
                    position: r.position,
                    typ: typ.unwrap(),
                    title: clone_opt_string(&db.synced[j].title),
                    place_id,
                    date_added: db.synced[j].date_added,
                    last_modified: now,
                    sync_change_counter: if r.should_upload {
                        1
                    } else {
                        0
                    },
                    sync_status: SyncStatus::Normal,
                };
                db.bookmarks.push(item);
                assert(db.bookmarks.deep_view() =~= start.bookmarks.push(
                    new_from_remote(
                        (max_local_id(start.bookmarks) + 1) as i64,
                        start.synced[j as int].kind.local_type().unwrap(),
                        start.synced[j as int],
                        row,
                        now,
                    ),
                ));
                mark_stale(&mut db.stale_frecencies, &db.places, place_id, now);
                if let Some(p) = place_id {
                    let guid = db.synced[j].guid.clone();
                    take_tags(&mut db.tags, &db.synced_tags, &guid, p);
                }
            }
            flag_merged(&mut db.synced, remote);
        },
        (None, None) => {},
    }
}

/// Puts the item of one merged row in its merged place.
fn place_one(items: &mut Vec<LocalItem>, r: &MergedRow)
    ensures
        final(items).deep_view() == placed_item(old(items).deep_view(), r.deep_view()),
{
    let ghost start = items.deep_view();
    let ghost row = r.deep_view();
    if crate::guid::is_root(r.merged_guid.as_str()) || crate::guid::is_root(
        r.merged_parent_guid.as_str(),
    ) {
        assert(placed_item(start, row) == start);
        return ;
    }
    let child = find_local(items, &r.merged_guid);
    let parent = find_local(items, &r.merged_parent_guid);
    if let Some(i) = child {
        if let Some(p) = parent {
            let parent_id = items[p].id;
            let mut item = items[i].duplicate();
            item.parent = Some(parent_id);
            item.position = r.position;
            items.set(i, item);
            assert(items.deep_view() =~= start.update(
                i as int,
                LocalItemModel {
                    parent: Some(start[p as int].id),
                    position: row.position,
                    ..start[i as int]
                },
            ));
            assert(local_index(start, row.merged_guid) == Some(i as int));
            assert(local_index(start, row.merged_parent_guid) == Some(p as int));
            return ;
        }
    }
    assert(placed_item(start, row) == start);
}

/// Applies one deletion.
fn remove_one(db: &mut PlacesDb, d: &RemovalRow, now: i64)
    ensures
        final(db)@ == old(db)@.remove_item(d.deep_view(), now),
{
    let ghost start = db@;
    let found = if BookmarkRootGuid::from_guid(d.guid.as_str()).is_some() {
        None
    } else {
        find_local(&db.bookmarks, &d.guid)
    };
    if let Some(i) = found {
        let place_id = db.bookmarks[i].place_id;
        mark_stale(&mut db.stale_frecencies, &db.places, place_id, now);
        db.bookmarks.remove(i);
        assert(db.bookmarks.deep_view() =~= start.bookmarks.remove(i as int));
    }
    if d.should_upload_tombstone {
        if find_tombstone(&db.deleted, &d.guid).is_none() {
            db.deleted.push(Tombstone { guid: d.guid.clone(), date_removed: now });
            assert(db.deleted.deep_view() =~= start.deleted.push(
                TombstoneModel { guid: d.guid@, date_removed: now },
            ));
        }
    } else {
        let remote = find_synced(&db.synced, &d.guid);
        flag_merged(&mut db.synced, remote);
    }
}

/// Applies the content and the guid of every merged row.
fn merge_all(db: &mut PlacesDb, rows: &Vec<MergedRow>, now: i64)
    requires
        old(db)@.has_room_for(rows.deep_view()),
    ensures
        final(db)@ == old(db)@.merge_items(rows.deep_view(), now, rows.len() as int),
{
    let ghost start = db@;
    let ghost all = rows.deep_view();
    let mut i: usize = 0;
    while i < rows.len()
        invariant
            i <= rows.len(),
            all == rows.deep_view(),
            start.has_room_for(all),
            db@ == start.merge_items(all, now, i as int),
        decreases rows.len() - i,
    {
        proof {
            lemma_merge_items_ids(start, all, now, i as int);
        }
        merge_one(db, &rows[i], now);
        i += 1;
    }
}

/// Puts the item of every merged row in its merged place.
fn place_all(items: &mut Vec<LocalItem>, rows: &Vec<MergedRow>)
    ensures
        final(items).deep_view() == placed_items(
            old(items).deep_view(),
            rows.deep_view(),
            rows.len() as int,
        ),
{
    let mut i: usize = 0;
    while i < rows.len()
        invariant
            i <= rows.len(),
            items.deep_view() == placed_items(old(items).deep_view(), rows.deep_view(), i as int),
        decreases rows.len() - i,
    {
        place_one(items, &rows[i]);
        i += 1;
    }
}

/// Applies every deletion.
fn remove_all(db: &mut PlacesDb, deletions: &Vec<RemovalRow>, now: i64)
    ensures
        final(db)@ == old(db)@.remove_items(deletions.deep_view(), now, deletions.len() as int),
{
    let mut i: usize = 0;
    while i < deletions.len()
        invariant
            i <= deletions.len(),
            db@ == old(db)@.remove_items(deletions.deep_view(), now, i as int),
        decreases deletions.len() - i,
    {
        remove_one(db, &deletions[i], now);
        i += 1;
    }
}

impl BookmarksStore {
    /// Updates the local tree to match the merged tree: takes over each
    /// item whose remote side won, keeps and flags for upload each whose
    /// local side won, puts every item where the merged tree has it, and
    /// makes the deletions that the merge accepted.
    ///
    /// Nothing changes where the store was interrupted, or where the local
    /// tree has no keys left for the new items.
    pub fn update_local_items(
        &mut self,
        now: Timestamp,
        descendants: &Vec<MergedRow>,
        deletions: &Vec<RemovalRow>,
    ) -> (r: Result<(), ErrorKind>)
        ensures
            final(self).interruptee == old(self).interruptee,
            old(self).interruptee.interrupted ==> r == Err::<(), ErrorKind>(ErrorKind::Interrupted)
                && final(self).db@ == old(self).db@,
            !old(self).interruptee.interrupted && !old(self).db@.has_room_for(
                descendants.deep_view(),
            ) ==> r == Err::<(), ErrorKind>(ErrorKind::Storage) && final(self).db@ == old(self).db@,
            !old(self).interruptee.interrupted && old(self).db@.has_room_for(
                descendants.deep_view(),
            ) ==> r is Ok && final(self).db@ == old(self).db@.apply_merged(
                descendants.deep_view(),
                deletions.deep_view(),
                now.millis(),
            ),
            old(self).db@.has_unique_keys() ==> final(self).db@.has_unique_keys(),
    {
        proof {
            if self.db@.has_unique_keys() && self.db@.has_room_for(descendants.deep_view()) {
                crate::keys::lemma_apply_merged_keeps_the_keys_unique(
                    self.db@,
                    descendants.deep_view(),
                    deletions.deep_view(),
                    now.millis(),
                );
            }
        }
        if self.interruptee.was_interrupted() {
            return Err(ErrorKind::Interrupted);
        }
        let largest = largest_local_id(&self.db.bookmarks);
        if descendants.len() as u64 > (i64::MAX - largest) as u64 {
            return Err(ErrorKind::Storage);
        }
        let now_ms = now.as_millis_i64();
        merge_all(&mut self.db, descendants, now_ms);
        place_all(&mut self.db.bookmarks, descendants);
        remove_all(&mut self.db, deletions, now_ms);
        Ok(())
    }
}

} // verus!
