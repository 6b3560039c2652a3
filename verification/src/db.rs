//! The store: the tables that hold the local tree, the mirror of the
//! server's tree, and what is staged for upload.

use vstd::prelude::*;
use crate::rows::{
    LocalItem, LocalItemModel, MergedRow, MergedRowModel, Place, PlaceModel, StaleFrecency,
    StaleFrecencyModel, StructureRow, StructureRowModel, SyncedItem, SyncedItemModel, SyncedTag,
    SyncedTagModel, TagRelation, TagRelationModel, Tombstone, TombstoneModel, UploadItem,
    UploadItemModel, UploadStructure, UploadStructureModel, UploadTag, UploadTagModel,
};
use crate::seqs::{first_index, lemma_first_index_is, lemma_first_index_none};
use crate::types::ConnectionType;

verus! {

/// The key under which the time of the last sync is persisted.
pub const LAST_SYNC_META_KEY: &'static str = "bookmarks_last_sync_time";

/// The key under which the global sync id is persisted.
pub const GLOBAL_SYNCID_META_KEY: &'static str = "bookmarks_global_sync_id";

/// The key under which the collection's sync id is persisted.
pub const COLLECTION_SYNCID_META_KEY: &'static str = "bookmarks_sync_id";

/// What the store remembers of its syncs.
#[derive(Debug)]
pub struct Meta {
    /// The server's time at the last sync, in milliseconds.
    pub last_sync: Option<i64>,
    pub global_sync_id: Option<String>,
    pub collection_sync_id: Option<String>,
}

/// What a `Meta` says, with every string as its text.
pub ghost struct MetaModel {
    pub last_sync: Option<i64>,
    pub global_sync_id: Option<Seq<char>>,
    pub collection_sync_id: Option<Seq<char>>,
}

impl DeepView for Meta {
    type V = MetaModel;

    open spec fn deep_view(&self) -> MetaModel {
        MetaModel {
            last_sync: self.last_sync,
            global_sync_id: self.global_sync_id.deep_view(),
            collection_sync_id: self.collection_sync_id.deep_view(),
        }
    }
}

/// The tables of the store.
#[derive(Debug)]
pub struct PlacesDb {
    pub conn_type: ConnectionType,
    /// The local tree.
    pub bookmarks: Vec<LocalItem>,
    /// Local deletions that the server has yet to hear of.
    pub deleted: Vec<Tombstone>,
    /// The mirror.
    pub synced: Vec<SyncedItem>,
    /// The children that the mirror's folders list.
    pub synced_structure: Vec<StructureRow>,
    /// The tags of the mirror's bookmarks.
    pub synced_tags: Vec<SyncedTag>,
    pub places: Vec<Place>,
    /// The queue of URLs whose frecency is out of date.
    pub stale_frecencies: Vec<StaleFrecency>,
    pub tags: Vec<TagRelation>,
    pub meta: Meta,
    /// What is staged for upload.
    pub items_to_upload: Vec<UploadItem>,
    pub structure_to_upload: Vec<UploadStructure>,
    pub tags_to_upload: Vec<UploadTag>,
}

/// The store as a mathematical value: each table a sequence of row models.
pub ghost struct DbModel {
    pub conn_type: ConnectionType,
    pub bookmarks: Seq<LocalItemModel>,
    pub deleted: Seq<TombstoneModel>,
    pub synced: Seq<SyncedItemModel>,
    pub synced_structure: Seq<StructureRowModel>,
    pub synced_tags: Seq<SyncedTagModel>,
    pub places: Seq<PlaceModel>,
    pub stale_frecencies: Seq<StaleFrecencyModel>,
    pub tags: Seq<TagRelationModel>,
    pub meta: MetaModel,
    pub items_to_upload: Seq<UploadItemModel>,
    pub structure_to_upload: Seq<UploadStructureModel>,
    pub tags_to_upload: Seq<UploadTagModel>,
}

impl View for PlacesDb {
    type V = DbModel;

    open spec fn view(&self) -> DbModel {
        DbModel {
            conn_type: self.conn_type,
            bookmarks: self.bookmarks.deep_view(),
            deleted: self.deleted.deep_view(),
            synced: self.synced.deep_view(),
            synced_structure: self.synced_structure.deep_view(),
            synced_tags: self.synced_tags.deep_view(),
            places: self.places.deep_view(),
            stale_frecencies: self.stale_frecencies.deep_view(),
            tags: self.tags.deep_view(),
            meta: self.meta.deep_view(),
            items_to_upload: self.items_to_upload.deep_view(),
            structure_to_upload: self.structure_to_upload.deep_view(),
            tags_to_upload: self.tags_to_upload.deep_view(),
        }
    }
}

/// The property of having the guid `guid`.
pub open spec fn local_has_guid(guid: Seq<char>) -> spec_fn(LocalItemModel) -> bool {
    |b: LocalItemModel| b.guid == guid
}

/// The property of having the key `id`.
pub open spec fn local_has_id(id: i64) -> spec_fn(LocalItemModel) -> bool {
    |b: LocalItemModel| b.id == id
}

/// The property of having the guid `guid`.
pub open spec fn synced_has_guid(guid: Seq<char>) -> spec_fn(SyncedItemModel) -> bool {
    |v: SyncedItemModel| v.guid == guid
}

/// The property of having the guid `guid`.
pub open spec fn tombstone_has_guid(guid: Seq<char>) -> spec_fn(TombstoneModel) -> bool {
    |d: TombstoneModel| d.guid == guid
}

/// The property of having the URL `url`.
pub open spec fn place_has_url(url: Seq<char>) -> spec_fn(PlaceModel) -> bool {
    |p: PlaceModel| p.url == url
}

/// The property of having the key `id`.
pub open spec fn place_has_id(id: i64) -> spec_fn(PlaceModel) -> bool {
    |p: PlaceModel| p.id == id
}

/// The property of being queued for the URL with the key `id`.
pub open spec fn stale_has_place(id: i64) -> spec_fn(StaleFrecencyModel) -> bool {
    |s: StaleFrecencyModel| s.place_id == id
}

/// The property of being the child at `position` in the list of `parent_guid`.
pub open spec fn structure_at(parent_guid: Seq<char>, position: i64) -> spec_fn(
    StructureRowModel,
) -> bool {
    |s: StructureRowModel| s.parent_guid == parent_guid && s.position == position
}

/// The property of being the staged snapshot of the local item with the key
/// `id`.
pub open spec fn upload_has_id(id: i64) -> spec_fn(UploadItemModel) -> bool {
    |u: UploadItemModel| u.id == Some(id)
}

/// The property of being kept under the guid `guid` in the merged tree.
pub open spec fn merged_has_guid(guid: Seq<char>) -> spec_fn(MergedRowModel) -> bool {
    |r: MergedRowModel| r.merged_guid == guid
}

/// The property of being staged under the guid `guid`.
pub open spec fn upload_has_guid(guid: Seq<char>) -> spec_fn(UploadItemModel) -> bool {
    |u: UploadItemModel| u.guid == guid
}

/// The index of the first local item with the guid `guid`.
pub open spec fn local_index(items: Seq<LocalItemModel>, guid: Seq<char>) -> Option<int> {
    first_index(items, local_has_guid(guid))
}

/// The index of the first local item with the key `id`.
pub open spec fn local_by_id_index(items: Seq<LocalItemModel>, id: i64) -> Option<int> {
    first_index(items, local_has_id(id))
}

/// The index of the first mirror row with the guid `guid`.
pub open spec fn synced_index(items: Seq<SyncedItemModel>, guid: Seq<char>) -> Option<int> {
    first_index(items, synced_has_guid(guid))
}

/// The index of the first tombstone with the guid `guid`.
pub open spec fn tombstone_index(items: Seq<TombstoneModel>, guid: Seq<char>) -> Option<int> {
    first_index(items, tombstone_has_guid(guid))
}

/// The index of the first place with the URL `url`.
pub open spec fn place_index(items: Seq<PlaceModel>, url: Seq<char>) -> Option<int> {
    first_index(items, place_has_url(url))
}

/// The index of the first place with the key `id`.
pub open spec fn place_by_id_index(items: Seq<PlaceModel>, id: i64) -> Option<int> {
    first_index(items, place_has_id(id))
}

/// The index of the first entry of the stale queue for the place `id`.
pub open spec fn stale_index(items: Seq<StaleFrecencyModel>, id: i64) -> Option<int> {
    first_index(items, stale_has_place(id))
}

/// The index of the first row that lists a child at `position` in `parent_guid`.
pub open spec fn structure_index(items: Seq<StructureRowModel>, parent_guid: Seq<char>, position: i64) -> Option<int> {
    first_index(items, structure_at(parent_guid, position))
}

/// The index of the first staged item with the guid `guid`.
pub open spec fn upload_index(items: Seq<UploadItemModel>, guid: Seq<char>) -> Option<int> {
    first_index(items, upload_has_guid(guid))
}

/// The index of the first merged row kept under the guid `guid`.
pub open spec fn merged_index(items: Seq<MergedRowModel>, guid: Seq<char>) -> Option<int> {
    first_index(items, merged_has_guid(guid))
}

/// The index of the first local item with the guid `guid`.
pub fn find_local(items: &Vec<LocalItem>, guid: &String) -> (r: Option<usize>)
    ensures
        same_index(r, local_index(items.deep_view(), guid@)),
        r matches Some(i) ==> i < items.len() && items[i as int].guid@ == guid@,
{
    let ghost p = local_has_guid(guid@);
    let ghost s = items.deep_view();
    let mut i: usize = 0;
    while i < items.len()
        invariant
            i <= items.len(),
            s == items.deep_view(),
            p == local_has_guid(guid@),
            forall|j: int| 0 <= j < i ==> !p(#[trigger] s[j]),
        decreases items.len() - i,
    {
        if items[i].guid == *guid {
            proof {
                lemma_first_index_is(s, p, i as int);
            }
            return Some(i);
        }
        i += 1;
    }
    proof {
        lemma_first_index_none(s, p);
    }
    None
}

/// The index of the first local item with the key `id`.
pub fn find_local_by_id(items: &Vec<LocalItem>, id: i64) -> (r: Option<usize>)
    ensures
        same_index(r, local_by_id_index(items.deep_view(), id)),
        r matches Some(i) ==> i < items.len() && items[i as int].id == id,
{
    let ghost p = local_has_id(id);
    let ghost s = items.deep_view();
    let mut i: usize = 0;
    while i < items.len()
        invariant
            i <= items.len(),
            s == items.deep_view(),
            p == local_has_id(id),
            forall|j: int| 0 <= j < i ==> !p(#[trigger] s[j]),
        decreases items.len() - i,
    {
        if items[i].id == id {
            proof {
                lemma_first_index_is(s, p, i as int);
            }
            return Some(i);
        }
        i += 1;
    }
    proof {
        lemma_first_index_none(s, p);
    }
    None
}

/// The index of the first mirror row with the guid `guid`.
pub fn find_synced(items: &Vec<SyncedItem>, guid: &String) -> (r: Option<usize>)
    ensures
        same_index(r, synced_index(items.deep_view(), guid@)),
        r matches Some(i) ==> i < items.len() && items[i as int].guid@ == guid@,
{
    let ghost p = synced_has_guid(guid@);
    let ghost s = items.deep_view();
    let mut i: usize = 0;
    while i < items.len()
        invariant
            i <= items.len(),
            s == items.deep_view(),
            p == synced_has_guid(guid@),
            forall|j: int| 0 <= j < i ==> !p(#[trigger] s[j]),
        decreases items.len() - i,
    {
        if items[i].guid == *guid {
            proof {
                lemma_first_index_is(s, p, i as int);
            }
            return Some(i);
        }
        i += 1;
    }
    proof {
        lemma_first_index_none(s, p);
    }
    None
}

/// The index of the first tombstone with the guid `guid`.
pub fn find_tombstone(items: &Vec<Tombstone>, guid: &String) -> (r: Option<usize>)
    ensures
        same_index(r, tombstone_index(items.deep_view(), guid@)),
        r matches Some(i) ==> i < items.len() && items[i as int].guid@ == guid@,
{
    let ghost p = tombstone_has_guid(guid@);
    let ghost s = items.deep_view();
    let mut i: usize = 0;
    while i < items.len()
        invariant
            i <= items.len(),
            s == items.deep_view(),
            p == tombstone_has_guid(guid@),
            forall|j: int| 0 <= j < i ==> !p(#[trigger] s[j]),
        decreases items.len() - i,
    {
        if items[i].guid == *guid {
            proof {
                lemma_first_index_is(s, p, i as int);
            }
            return Some(i);
        }
        i += 1;
    }
    proof {
        lemma_first_index_none(s, p);
    }
    None
}

/// The index of the first place with the URL `url`.
pub fn find_place(items: &Vec<Place>, url: &String) -> (r: Option<usize>)
    ensures
        same_index(r, place_index(items.deep_view(), url@)),
        r matches Some(i) ==> i < items.len() && items[i as int].url@ == url@,
{
    let ghost p = place_has_url(url@);
    let ghost s = items.deep_view();
    let mut i: usize = 0;
    while i < items.len()
        invariant
            i <= items.len(),
            s == items.deep_view(),
            p == place_has_url(url@),
            forall|j: int| 0 <= j < i ==> !p(#[trigger] s[j]),
        decreases items.len() - i,
    {
        if items[i].url == *url {
            proof {
                lemma_first_index_is(s, p, i as int);
            }
            return Some(i);
        }
        i += 1;
    }
    proof {
        lemma_first_index_none(s, p);
    }
    None
}

/// The index of the first place with the key `id`.
pub fn find_place_by_id(items: &Vec<Place>, id: i64) -> (r: Option<usize>)
    ensures
        same_index(r, place_by_id_index(items.deep_view(), id)),
        r matches Some(i) ==> i < items.len() && items[i as int].id == id,
{
    let ghost p = place_has_id(id);
    let ghost s = items.deep_view();
    let mut i: usize = 0;
    while i < items.len()
        invariant
            i <= items.len(),
            s == items.deep_view(),
            p == place_has_id(id),
            forall|j: int| 0 <= j < i ==> !p(#[trigger] s[j]),
        decreases items.len() - i,
    {
        if items[i].id == id {
            proof {
                lemma_first_index_is(s, p, i as int);
            }
            return Some(i);
        }
        i += 1;
    }
    proof {
        lemma_first_index_none(s, p);
    }
    None
}

/// The index of the first entry of the stale queue for the place `id`.
pub fn find_stale(items: &Vec<StaleFrecency>, id: i64) -> (r: Option<usize>)
    ensures
        same_index(r, stale_index(items.deep_view(), id)),
        r matches Some(i) ==> i < items.len() && items[i as int].place_id == id,
{
    let ghost p = stale_has_place(id);
    let ghost s = items.deep_view();
    let mut i: usize = 0;
    while i < items.len()
        invariant
            i <= items.len(),
            s == items.deep_view(),
            p == stale_has_place(id),
            forall|j: int| 0 <= j < i ==> !p(#[trigger] s[j]),
        decreases items.len() - i,
    {
        if items[i].place_id == id {
            proof {
                lemma_first_index_is(s, p, i as int);
            }
            return Some(i);
        }
        i += 1;
    }
    proof {
        lemma_first_index_none(s, p);
    }
    None
}

/// The index of the first row that lists a child at `position` in `parent_guid`.
pub fn find_structure(items: &Vec<StructureRow>, parent_guid: &String, position: i64) -> (r: Option<usize>)
    ensures
        same_index(r, structure_index(items.deep_view(), parent_guid@, position)),
        r matches Some(i) ==> i < items.len() && items[i as int].position == position,
{
    let ghost p = structure_at(parent_guid@, position);
    let ghost s = items.deep_view();
    let mut i: usize = 0;
    while i < items.len()
        invariant
            i <= items.len(),
            s == items.deep_view(),
            p == structure_at(parent_guid@, position),
            forall|j: int| 0 <= j < i ==> !p(#[trigger] s[j]),
        decreases items.len() - i,
    {
        if items[i].parent_guid == *parent_guid && items[i].position == position {
            proof {
                lemma_first_index_is(s, p, i as int);
            }
            return Some(i);
        }
        i += 1;
    }
    proof {
        lemma_first_index_none(s, p);
    }
    None
}

/// The index of the first staged item with the guid `guid`.
pub fn find_upload(items: &Vec<UploadItem>, guid: &String) -> (r: Option<usize>)
    ensures
        same_index(r, upload_index(items.deep_view(), guid@)),
        r matches Some(i) ==> i < items.len() && items[i as int].guid@ == guid@,
{
    let ghost p = upload_has_guid(guid@);
    let ghost s = items.deep_view();
    let mut i: usize = 0;
    while i < items.len()
        invariant
            i <= items.len(),
            s == items.deep_view(),
            p == upload_has_guid(guid@),
            forall|j: int| 0 <= j < i ==> !p(#[trigger] s[j]),
        decreases items.len() - i,
    {
        if items[i].guid == *guid {
            proof {
                lemma_first_index_is(s, p, i as int);
            }
            return Some(i);
        }
        i += 1;
    }
    proof {
        lemma_first_index_none(s, p);
    }
    None
}

/// The index of the first merged row kept under the guid `guid`.
pub fn find_merged(items: &Vec<MergedRow>, guid: &String) -> (r: Option<usize>)
    ensures
        same_index(r, merged_index(items.deep_view(), guid@)),
        r matches Some(i) ==> i < items.len() && items[i as int].merged_guid@ == guid@,
{
    let ghost p = merged_has_guid(guid@);
    let ghost s = items.deep_view();
    let mut i: usize = 0;
    while i < items.len()
        invariant
            i <= items.len(),
            s == items.deep_view(),
            p == merged_has_guid(guid@),
            forall|j: int| 0 <= j < i ==> !p(#[trigger] s[j]),
        decreases items.len() - i,
    {
        if items[i].merged_guid == *guid {
            proof {
                lemma_first_index_is(s, p, i as int);
            }
            return Some(i);
        }
        i += 1;
    }
    proof {
        lemma_first_index_none(s, p);
    }
    None
}

/// The index of the first staged snapshot of the local item with the key
/// `id`.
pub open spec fn upload_by_id_index(items: Seq<UploadItemModel>, id: i64) -> Option<int> {
    first_index(items, upload_has_id(id))
}

/// The index of the first staged snapshot of the local item with the key
/// `id`.
pub fn find_upload_by_id(items: &Vec<UploadItem>, id: i64) -> (r: Option<usize>)
    ensures
        same_index(r, upload_by_id_index(items.deep_view(), id)),
        r matches Some(i) ==> i < items.len() && items[i as int].id == Some(id),
{
    let ghost p = upload_has_id(id);
    let ghost s = items.deep_view();
    let mut i: usize = 0;
    while i < items.len()
        invariant
            i <= items.len(),
            s == items.deep_view(),
            p == upload_has_id(id),
            forall|j: int| 0 <= j < i ==> !p(#[trigger] s[j]),
        decreases items.len() - i,
    {
        let hit = match items[i].id {
            Some(x) => x == id,
            None => false,
        };
        if hit {
            proof {
                lemma_first_index_is(s, p, i as int);
            }
            return Some(i);
        }
        i += 1;
    }
    proof {
        lemma_first_index_none(s, p);
    }
    None
}

/// Whether an index found in a table is the one that the model names.
pub open spec fn same_index(found: Option<usize>, named: Option<int>) -> bool {
    match found {
        Some(i) => named == Some(i as int),
        None => named is None,
    }
}

/// The URL of the place with the key `id`, where `id` is given and such a
/// place exists.
pub open spec fn url_of_place(places: Seq<PlaceModel>, id: Option<i64>) -> Option<Seq<char>> {
    match id {
        Some(id) => match place_by_id_index(places, id) {
            Some(i) => Some(places[i].url),
            None => None,
        },
        None => None,
    }
}

/// The URL of the place with the key `id`.
pub fn find_url(places: &Vec<Place>, id: Option<i64>) -> (r: Option<String>)
    ensures
        r.deep_view() == url_of_place(places.deep_view(), id),
{
    match id {
        Some(id) => match find_place_by_id(places, id) {
            Some(i) => Some(places[i].url.clone()),
            None => None,
        },
        None => None,
    }
}

impl DbModel {
    /// When the frecency of `url` went stale, if it is stale.
    pub open spec fn frecency_stale_at(self, url: Seq<char>) -> Option<i64> {
        match place_index(self.places, url) {
            Some(i) => match stale_index(self.stale_frecencies, self.places[i].id) {
                Some(j) => Some(self.stale_frecencies[j].stale_at),
                None => None,
            },
            None => None,
        }
    }
}

impl PlacesDb {
    /// When the frecency of `url` went stale, if it is stale.
    pub fn frecency_stale_at(&self, url: &String) -> (r: Option<i64>)
        ensures
            r == self@.frecency_stale_at(url@),
    {
        match find_place(&self.places, url) {
            Some(i) => match find_stale(&self.stale_frecencies, self.places[i].id) {
                Some(j) => Some(self.stale_frecencies[j].stale_at),
                None => None,
            },
            None => None,
        }
    }
}

} // verus!
