//! Staging for upload: a snapshot of every local item that has something
//! for the server, of the children of each such folder and of the tags of
//! each such bookmark, and a tombstone for every local deletion.

use vstd::prelude::*;
use crate::applier::remote_side;
use crate::db::{
    find_merged, find_synced, find_upload, find_upload_by_id, find_url, merged_index,
    upload_by_id_index, upload_index, url_of_place, DbModel,
};
use crate::guid::{has_query_scheme, is_query_url, is_root, root_guid};
use crate::local_tree::{
    find_parent, lemma_local_tree_order, local_tree_keys, local_tree_order, parent_index,
};
use crate::rows::{
    LocalItem, LocalItemModel, MergedRow, MergedRowModel, Place, PlaceModel, SyncedItem,
    SyncedItemModel, TagRelation, TagRelationModel, Tombstone, TombstoneModel, UploadItem,
    UploadItemModel, UploadStructure, UploadStructureModel, UploadTag, UploadTagModel,
};
use crate::seqs::{lemma_filter_step, lemma_take_all};
use crate::store::BookmarksStore;
use crate::text::clone_opt_string;
use crate::types::SyncedBookmarkKind;

verus! {

/// Whether the item `b`, whose remote side won, goes up all the same,
/// because it is the older of the two: the server is to learn the earlier
/// creation date.
pub open spec fn weakly_uploaded(
    b: LocalItemModel,
    r: MergedRowModel,
    synced: Seq<SyncedItemModel>,
) -> bool {
    r.use_remote && match remote_side(synced, r) {
        Some(j) => b.date_added < synced[j].date_added,
        None => false,
    }
}

/// The snapshot that is staged for the local item at `i`, if one is: the
/// item is no synthetic root, it is part of the merged tree, and the merge
/// flagged it for upload, or it has changes of its own, or it is the older
/// side of an item whose remote side won.
pub open spec fn staged_item(
    items: Seq<LocalItemModel>,
    synced: Seq<SyncedItemModel>,
    places: Seq<PlaceModel>,
    rows: Seq<MergedRowModel>,
    i: int,
) -> Option<UploadItemModel> {
    let s = items[i];
    if s.guid == root_guid() {
        None
    } else {
        match merged_index(rows, s.guid) {
            Some(m) => if rows[m].should_upload || s.sync_change_counter > 0 || weakly_uploaded(
                s,
                rows[m],
                synced,
            ) {
                let url = url_of_place(places, s.place_id);
                Some(
                    UploadItemModel {
                        id: Some(s.id),
                        guid: s.guid,
                        sync_change_counter: s.sync_change_counter,
                        parent_guid: match parent_index(items, i) {
                            Some(p) => Some(items[p].guid),
                            None => None,
                        },
                        parent_title: match parent_index(items, i) {
                            Some(p) => items[p].title,
                            None => None,
                        },
                        date_added: Some(s.date_added),
                        title: s.title,
                        place_id: s.place_id,
                        kind: Some(
                            SyncedBookmarkKind::of_local(
                                s.typ,
                                match url {
                                    Some(u) => is_query_url(u),
                                    None => false,
                                },
                            ),
                        ),
                        url,
                        keyword: match remote_side(synced, rows[m]) {
                            Some(j) => synced[j].keyword,
                            None => None,
                        },
                        position: Some(s.position),
                        is_deleted: false,
                        uploaded_at: None,
                    },
                )
            } else {
                None
            },
            None => None,
        }
    }
}

/// The snapshots staged for the first `n` items of the local tree, in the
/// tree's order.
pub open spec fn staged_items(
    items: Seq<LocalItemModel>,
    synced: Seq<SyncedItemModel>,
    places: Seq<PlaceModel>,
    rows: Seq<MergedRowModel>,
    n: int,
) -> Seq<UploadItemModel>
    decreases n,
{
    if n <= 0 {
        Seq::empty()
    } else {
        let before = staged_items(items, synced, places, rows, n - 1);
        match staged_item(items, synced, places, rows, local_tree_order(items)[n - 1].index as int) {
            Some(u) => before.push(u),
            None => before,
        }
    }
}

/// What is staged with a tombstone for each of the first `n` local
/// deletions under whose guid nothing is staged yet.
pub open spec fn with_staged_tombstones(
    staged: Seq<UploadItemModel>,
    deleted: Seq<TombstoneModel>,
    n: int,
) -> Seq<UploadItemModel>
    decreases n,
{
    if n <= 0 {
        staged
    } else {
        let before = with_staged_tombstones(staged, deleted, n - 1);
        if upload_index(before, deleted[n - 1].guid) is None {
            before.push(staged_tombstone(deleted[n - 1].guid))
        } else {
            before
        }
    }
}

/// The staged form of a local deletion.
pub open spec fn staged_tombstone(guid: Seq<char>) -> UploadItemModel {
    UploadItemModel {
        id: None,
        guid,
        sync_change_counter: 1,
        parent_guid: None,
        parent_title: None,
        date_added: None,
        title: None,
        place_id: None,
        kind: None,
        url: None,
        keyword: None,
        position: None,
        is_deleted: true,
        uploaded_at: None,
    }
}

/// The children staged among the first `n` local items: each item whose
/// parent is staged.
pub open spec fn staged_structure(
    items: Seq<LocalItemModel>,
    staged: Seq<UploadItemModel>,
    n: int,
) -> Seq<UploadStructureModel>
    decreases n,
{
    if n <= 0 {
        Seq::empty()
    } else {
        let before = staged_structure(items, staged, n - 1);
        let b = items[n - 1];
        match b.parent {
            Some(parent_id) => if upload_by_id_index(staged, parent_id) is Some {
                before.push(
                    UploadStructureModel { guid: b.guid, parent_id, position: b.position },
                )
            } else {
                before
            },
            None => before,
        }
    }
}

/// The property of being a tag on the place `id`.
pub open spec fn tags_place(id: i64) -> spec_fn(TagRelationModel) -> bool {
    |t: TagRelationModel| t.place_id == id
}

/// The tags staged for one staged item: those of its place.
pub open spec fn staged_tags_of(u: UploadItemModel, tags: Seq<TagRelationModel>) -> Seq<
    UploadTagModel,
> {
    match (u.id, u.place_id) {
        (Some(id), Some(place_id)) => tags.filter(tags_place(place_id)).map_values(
            |t: TagRelationModel| UploadTagModel { id, tag: t.tag },
        ),
        _ => Seq::empty(),
    }
}

/// The tags staged for the first `n` staged items.
pub open spec fn staged_tag_rows(staged: Seq<UploadItemModel>, tags: Seq<TagRelationModel>, n: int) -> Seq<
    UploadTagModel,
>
    decreases n,
{
    if n <= 0 {
        Seq::empty()
    } else {
        staged_tag_rows(staged, tags, n - 1) + staged_tags_of(staged[n - 1], tags)
    }
}

impl DbModel {
    /// The snapshots of the local items that go up after a merge with the
    /// merged rows `rows`.
    pub open spec fn staged_snapshots(self, rows: Seq<MergedRowModel>) -> Seq<UploadItemModel> {
        staged_items(
            self.bookmarks,
            self.synced,
            self.places,
            rows,
            local_tree_order(self.bookmarks).len() as int,
        )
    }

    /// The store with everything staged that goes up after a merge with the
    /// merged rows `rows`. What was staged before is dropped.
    pub open spec fn staged(self, rows: Seq<MergedRowModel>) -> DbModel {
        let snapshots = self.staged_snapshots(rows);
        DbModel {
            items_to_upload: with_staged_tombstones(
                snapshots,
                self.deleted,
                self.deleted.len() as int,
            ),
            structure_to_upload: staged_structure(
                self.bookmarks,
                snapshots,
                self.bookmarks.len() as int,
            ),
            tags_to_upload: staged_tag_rows(snapshots, self.tags, snapshots.len() as int),
            ..self
        }
    }
}

fn snapshot_of(
    items: &Vec<LocalItem>,
    synced: &Vec<SyncedItem>,
    places: &Vec<Place>,
    rows: &Vec<MergedRow>,
    i: usize,
) -> (r: Option<UploadItem>)
    requires
        i < items.len(),
    ensures
        r.deep_view() == staged_item(
            items.deep_view(),
            synced.deep_view(),
            places.deep_view(),
            rows.deep_view(),
            i as int,
        ),
{
    let s = &items[i];
    if is_root(s.guid.as_str()) {
        return None;
    }
    let m = match find_merged(rows, &s.guid) {
        Some(m) => m,
        None => {
            return None;
        },
    };
    let remote = match &rows[m].remote_guid {
        Some(guid) => find_synced(synced, guid),
        None => None,
    };
    let weak = rows[m].use_remote && match remote {
        Some(j) => s.date_added < synced[j].date_added,
        None => false,
    };
    if !(rows[m].should_upload || s.sync_change_counter > 0 || weak) {
        return None;
    }
    let url = find_url(places, s.place_id);
    let is_query = match &url {
        Some(u) => has_query_scheme(u.as_str()),
        None => false,
    };
    let parent = find_parent(items, i);
    Some(
        UploadItem {
            id: Some(s.id),
            guid: s.guid.clone(),
            sync_change_counter: s.sync_change_counter,
            parent_guid: match parent {
                Some(p) => Some(items[p].guid.clone()),
                None => None,
            },
            parent_title: match parent {
                Some(p) => clone_opt_string(&items[p].title),
                None => None,
            },
            date_added: Some(s.date_added),
            title: clone_opt_string(&s.title),
            place_id: s.place_id,
            kind: Some(SyncedBookmarkKind::from_local(s.typ, is_query)),
            url,
            keyword: match remote {
                Some(j) => clone_opt_string(&synced[j].keyword),
                None => None,
            },
            position: Some(s.position),
            is_deleted: false,
            uploaded_at: None,
        },
    )
}

fn stage_snapshots(
    items: &Vec<LocalItem>,
    synced: &Vec<SyncedItem>,
    places: &Vec<Place>,
    rows: &Vec<MergedRow>,
) -> (staged: Vec<UploadItem>)
    ensures
        staged.deep_view() == staged_items(
            items.deep_view(),
            synced.deep_view(),
            places.deep_view(),
            rows.deep_view(),
            local_tree_order(items.deep_view()).len() as int,
        ),
{
    let order = local_tree_keys(items);
    proof {
        assert(items.deep_view().len() == items.len());
        lemma_local_tree_order(items.deep_view());
    }
    let mut staged: Vec<UploadItem> = Vec::new();
    assert(staged.deep_view() =~= Seq::empty());
    let mut n: usize = 0;
    while n < order.len()
        invariant
            n <= order.len(),
            order@ == local_tree_order(items.deep_view()),
            forall|j: int| 0 <= j < order.len() ==> (#[trigger] order@[j]).index < items.len(),
            staged.deep_view() == staged_items(
                items.deep_view(),
                synced.deep_view(),
                places.deep_view(),
                rows.deep_view(),
                n as int,
            ),
        decreases order.len() - n,
    {
        let ghost before = staged.deep_view();
        let k = order[n];
        assert(order@[n as int].index < items.len());
        match snapshot_of(items, synced, places, rows, k.index) {
            Some(u) => {
                staged.push(u);
                assert(staged.deep_view() =~= before.push(u.deep_view()));
            },
            None => {},
        }
        n += 1;
    }
    staged
}

fn stage_tombstones(staged: &mut Vec<UploadItem>, deleted: &Vec<Tombstone>)
    ensures
        final(staged).deep_view() == with_staged_tombstones(
            old(staged).deep_view(),
            deleted.deep_view(),
            deleted.len() as int,
        ),
{
    let mut n: usize = 0;
    while n < deleted.len()
        invariant
            n <= deleted.len(),
            staged.deep_view() == with_staged_tombstones(
                old(staged).deep_view(),
                deleted.deep_view(),
                n as int,
            ),
        decreases deleted.len() - n,
    {
        let ghost before = staged.deep_view();
        if find_upload(staged, &deleted[n].guid).is_none() {
            staged.push(
                UploadItem {
                    id: None,
                    guid: deleted[n].guid.clone(),
                    sync_change_counter: 1,
                    parent_guid: None,
                    parent_title: None,
                    date_added: None,
                    title: None,
                    place_id: None,
                    kind: None,
                    url: None,
                    keyword: None,
                    position: None,
                    is_deleted: true,
                    uploaded_at: None,
                },
            );
            assert(staged.deep_view() =~= before.push(staged_tombstone(deleted[n as int].guid@)));
        }
        n += 1;
    }
}

fn stage_structure(items: &Vec<LocalItem>, staged: &Vec<UploadItem>) -> (out: Vec<UploadStructure>)
    ensures
        out.deep_view() == staged_structure(
            items.deep_view(),
            staged.deep_view(),
            items.len() as int,
        ),
{
    let mut out: Vec<UploadStructure> = Vec::new();
    assert(out.deep_view() =~= Seq::empty());
    let mut n: usize = 0;
    while n < items.len()
        invariant
            n <= items.len(),
            out.deep_view() == staged_structure(items.deep_view(), staged.deep_view(), n as int),
        decreases items.len() - n,
    {
        let ghost before = out.deep_view();
        if let Some(parent_id) = items[n].parent {
            if find_upload_by_id(staged, parent_id).is_some() {
                out.push(
                    UploadStructure {
                        guid: items[n].guid.clone(),
                        parent_id,
                        position: items[n].position,
                    },
                );
                assert(out.deep_view() =~= before.push(
                    UploadStructureModel {
                        guid: items[n as int].guid@,
                        parent_id,
                        position: items[n as int].position,
                    },
                ));
            }
        }
        n += 1;
    }
    out
}

fn append_tags_of(out: &mut Vec<UploadTag>, u: &UploadItem, tags: &Vec<TagRelation>)
    ensures
        final(out).deep_view() == old(out).deep_view() + staged_tags_of(
            u.deep_view(),
            tags.deep_view(),
        ),
{
    let ghost start = out.deep_view();
    let ghost all = tags.deep_view();
    let (id, place_id) = match (u.id, u.place_id) {
        (Some(id), Some(place_id)) => (id, place_id),
        _ => {
            assert(start + Seq::<UploadTagModel>::empty() =~= start);
            return ;
        },
    };
    assert(out.deep_view() =~= start + Seq::<UploadTagModel>::empty());
    let mut n: usize = 0;
    while n < tags.len()
        invariant
            n <= tags.len(),
            all == tags.deep_view(),
            out.deep_view() == start + all.take(n as int).filter(tags_place(place_id)).map_values(
                |t: TagRelationModel| UploadTagModel { id, tag: t.tag },
            ),
        decreases tags.len() - n,
    {
        proof {
            lemma_filter_step(all, tags_place(place_id), n as int);
        }
        let ghost before = out.deep_view();
        if tags[n].place_id == place_id {
            out.push(UploadTag { id, tag: tags[n].tag.clone() });
            assert(out.deep_view() =~= before.push(UploadTagModel { id, tag: all[n as int].tag }));
        }
        assert(out.deep_view() =~= start + all.take(n + 1).filter(tags_place(place_id)).map_values(
            |t: TagRelationModel| UploadTagModel { id, tag: t.tag },
        ));
        n += 1;
    }
    proof {
        lemma_take_all(all);
    }
}

fn stage_tags(staged: &Vec<UploadItem>, tags: &Vec<TagRelation>) -> (out: Vec<UploadTag>)
    ensures
        out.deep_view() == staged_tag_rows(
            staged.deep_view(),
            tags.deep_view(),
            staged.len() as int,
        ),
{
    let mut out: Vec<UploadTag> = Vec::new();
    assert(out.deep_view() =~= Seq::empty());
    let mut n: usize = 0;
    while n < staged.len()
        invariant
            n <= staged.len(),
            out.deep_view() == staged_tag_rows(staged.deep_view(), tags.deep_view(), n as int),
        decreases staged.len() - n,
    {
        append_tags_of(&mut out, &staged[n], tags);
        n += 1;
    }
    out
}

impl BookmarksStore {
    /// Stores a snapshot of all locally changed items for upload, with the
    /// children of each staged folder, the tags of each staged bookmark, and
    /// a tombstone for each local deletion. The local change counter stays
    /// the lasting record of what is to go up: if the upload fails, the
    /// next sync stages the items again.
    pub fn stage_local_items_to_upload(&mut self, descendants: &Vec<MergedRow>)
        ensures
            final(self).db@ == old(self).db@.staged(descendants.deep_view()),
            final(self).interruptee == old(self).interruptee,
            old(self).db@.has_unique_keys() ==> final(self).db@.has_unique_keys(),
    {
        let mut staged = stage_snapshots(
            &self.db.bookmarks,
            &self.db.synced,
            &self.db.places,
            descendants,
        );
        self.db.structure_to_upload = stage_structure(&self.db.bookmarks, &staged);
        self.db.tags_to_upload = stage_tags(&staged, &self.db.tags);
        stage_tombstones(&mut staged, &self.db.deleted);
        self.db.items_to_upload = staged;
    }
}

} // verus!
