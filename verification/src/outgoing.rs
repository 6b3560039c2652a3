//! Turning what is staged for upload into records.

use std::collections::HashMap;
use vstd::prelude::*;
use crate::db::DbModel;
use crate::error::ErrorKind;
use crate::guid::{record_id_of_guid, BookmarkRecordId};
use crate::order::{lemma_sorted_keys, sort_keys, sorted_keys, SortKey};
use crate::record::{
    BookmarkItemRecord, BookmarkRecord, BookmarkRecordModel, FolderRecord, FolderRecordModel,
    OutgoingChangeset, QueryRecord, QueryRecordModel, RecordModel, SeparatorRecord,
    SeparatorRecordModel,
};
use crate::rows::{
    UploadItem, UploadItemModel, UploadStructure, UploadStructureModel, UploadTag, UploadTagModel,
};
use crate::seqs::{lemma_filter_step, lemma_take_all};
use crate::store::BookmarksStore;
use crate::text::{clone_opt_string, clone_strings, string_or_empty, text_or_empty};
use crate::types::{ServerTimestamp, SyncedBookmarkKind};

verus! {

/// The keys that order the staged children: by folder, then by position.
pub open spec fn structure_keys(structure: Seq<UploadStructureModel>) -> Seq<SortKey> {
    Seq::new(
        structure.len(),
        |i: int|
            SortKey {
                major: structure[i].parent_id,
                minor: structure[i].position,
                rank: 0,
                index: i as usize,
            },
    )
}

/// The property of belonging to the folder with the key `id`.
pub open spec fn in_folder(id: i64) -> spec_fn(SortKey) -> bool {
    |k: SortKey| k.major == id
}

/// The record id of the child that a key stands for.
pub open spec fn child_id_at(structure: Seq<UploadStructureModel>) -> spec_fn(SortKey) -> Seq<
    char,
> {
    |k: SortKey| record_id_of_guid(structure[k.index as int].guid)
}

/// The record ids of the staged children of the folder with the key `id`,
/// in the order of their positions.
pub open spec fn staged_children(structure: Seq<UploadStructureModel>, id: i64) -> Seq<Seq<char>> {
    sorted_keys(structure_keys(structure)).filter(in_folder(id)).map_values(child_id_at(structure))
}

/// The property of being a tag of the item with the key `id`.
pub open spec fn tags_item(id: i64) -> spec_fn(UploadTagModel) -> bool {
    |t: UploadTagModel| t.id == id
}

/// The staged tags of the item with the key `id`.
pub open spec fn staged_tags(tags: Seq<UploadTagModel>, id: i64) -> Seq<Seq<char>> {
    tags.filter(tags_item(id)).map_values(|t: UploadTagModel| t.tag)
}

/// The record for a staged item: a tombstone for a deletion, nothing for a
/// livemark, and else the record of the item's kind. A staged item that
/// lacks what its record needs cannot be read.
pub open spec fn outgoing_record(
    u: UploadItemModel,
    structure: Seq<UploadStructureModel>,
    tags: Seq<UploadTagModel>,
) -> Result<Option<RecordModel>, ErrorKind> {
    if u.is_deleted {
        Ok(Some(RecordModel::Tombstone { record_id: record_id_of_guid(u.guid) }))
    } else {
        match (u.parent_guid, u.date_added, u.kind) {
            (Some(parent_guid), Some(date_added), Some(kind)) => {
                let record_id = record_id_of_guid(u.guid);
                let parent_record_id = Some(record_id_of_guid(parent_guid));
                let parent_title = Some(text_or_empty(u.parent_title));
                let title = Some(text_or_empty(u.title));
                match kind {
                    SyncedBookmarkKind::Bookmark => match (u.id, u.url) {
                        (Some(id), Some(url)) => Ok(
                            Some(
                                RecordModel::Bookmark(
                                    BookmarkRecordModel {
                                        record_id,
                                        parent_record_id,
                                        parent_title,
                                        date_added: Some(date_added),
                                        has_dupe: true,
                                        title,
                                        url: Some(url),
                                        keyword: u.keyword,
                                        tags: staged_tags(tags, id),
                                    },
                                ),
                            ),
                        ),
                        _ => Err(ErrorKind::Storage),
                    },
                    SyncedBookmarkKind::Query => match u.url {
                        Some(url) => Ok(
                            Some(
                                RecordModel::Query(
                                    QueryRecordModel {
                                        record_id,
                                        parent_record_id,
                                        parent_title,
                                        date_added: Some(date_added),
                                        has_dupe: true,
                                        title,
                                        url: Some(url),
                                        tag_folder_name: None,
                                    },
                                ),
                            ),
                        ),
                        None => Err(ErrorKind::Storage),
                    },
                    SyncedBookmarkKind::Folder => match u.id {
                        Some(id) => Ok(
                            Some(
                                RecordModel::Folder(
                                    FolderRecordModel {
                                        record_id,
                                        parent_record_id,
                                        parent_title,
                                        date_added: Some(date_added),
                                        has_dupe: true,
                                        title,
                                        children: staged_children(structure, id),
                                    },
                                ),
                            ),
                        ),
                        None => Err(ErrorKind::Storage),
                    },
                    SyncedBookmarkKind::Livemark => Ok(None),
                    SyncedBookmarkKind::Separator => match u.position {
                        Some(position) => Ok(
                            Some(
                                RecordModel::Separator(
                                    SeparatorRecordModel {
                                        record_id,
                                        parent_record_id,
                                        parent_title,
                                        date_added: Some(date_added),
                                        has_dupe: true,
                                        position: Some(position),
                                    },
                                ),
                            ),
                        ),
                        None => Err(ErrorKind::Storage),
                    },
                }
            },
            _ => Err(ErrorKind::Storage),
        }
    }
}

/// The records for the first `n` staged items, in their order, or the
/// error of the first among them that cannot be read.
pub open spec fn outgoing_records(
    items: Seq<UploadItemModel>,
    structure: Seq<UploadStructureModel>,
    tags: Seq<UploadTagModel>,
    n: int,
) -> Result<Seq<RecordModel>, ErrorKind>
    decreases n,
{
    if n <= 0 {
        Ok(Seq::empty())
    } else {
        match outgoing_records(items, structure, tags, n - 1) {
            Ok(before) => match outgoing_record(items[n - 1], structure, tags) {
                Ok(Some(record)) => Ok(before.push(record)),
                Ok(None) => Ok(before),
                Err(e) => Err(e),
            },
            Err(e) => Err(e),
        }
    }
}

impl DbModel {
    /// The records for all staged items.
    pub open spec fn outgoing(self) -> Result<Seq<RecordModel>, ErrorKind> {
        outgoing_records(
            self.items_to_upload,
            self.structure_to_upload,
            self.tags_to_upload,
            self.items_to_upload.len() as int,
        )
    }
}

fn make_structure_keys(structure: &Vec<UploadStructure>) -> (keys: Vec<SortKey>)
    ensures
        keys@ == structure_keys(structure.deep_view()),
{
    let mut keys: Vec<SortKey> = Vec::new();
    let mut i: usize = 0;
    while i < structure.len()
        invariant
            i <= structure.len(),
            keys.len() == i,
            forall|j: int|
                0 <= j < i ==> #[trigger] keys[j] == structure_keys(structure.deep_view())[j],
        decreases structure.len() - i,
    {
        keys.push(
            SortKey {
                major: structure[i].parent_id,
                minor: structure[i].position,
                rank: 0,
                index: i,
            },
        );
        i += 1;
    }
    assert(keys@ =~= structure_keys(structure.deep_view()));
    keys
}

/// The texts that a map holds under the key `id`, and none where it holds
/// nothing under it.
pub open spec fn grouped(map: Map<i64, Vec<String>>, id: i64) -> Seq<Seq<char>> {
    if map.contains_key(id) {
        map[id].deep_view()
    } else {
        Seq::empty()
    }
}

fn put_under(map: &mut HashMap<i64, Vec<String>>, id: i64, text: String)
    ensures
        forall|k: i64| #[trigger]
            grouped(final(map)@, k) == if k == id {
                grouped(old(map)@, id).push(text@)
            } else {
                grouped(old(map)@, k)
            },
{
    broadcast use vstd::std_specs::hash::group_hash_axioms;

    let ghost before = grouped(map@, id);
    let mut list = match map.remove(&id) {
        Some(list) => list,
        None => Vec::new(),
    };
    assert(list.deep_view() =~= before);
    list.push(text);
    assert(list.deep_view() =~= before.push(text@));
    map.insert(id, list);
}

fn held_under(map: &HashMap<i64, Vec<String>>, id: i64) -> (out: Vec<String>)
    ensures
        out.deep_view() == grouped(map@, id),
{
    broadcast use vstd::std_specs::hash::group_hash_axioms;

    match map.get(&id) {
        Some(list) => clone_strings(list),
        None => {
            let out: Vec<String> = Vec::new();
            assert(out.deep_view() =~= Seq::empty());
            out
        },
    }
}

fn children_by_folder(structure: &Vec<UploadStructure>) -> (map: HashMap<i64, Vec<String>>)
    ensures
        forall|id: i64| #[trigger] grouped(map@, id) == staged_children(structure.deep_view(), id),
{
    let ghost rows = structure.deep_view();
    let ghost keys = structure_keys(rows);
    let made = make_structure_keys(structure);
    let sorted = sort_keys(&made);
    proof {
        lemma_sorted_keys(keys);
    }
    let mut map: HashMap<i64, Vec<String>> = HashMap::new();
    let mut i: usize = 0;
    while i < sorted.len()
        invariant
            i <= sorted.len(),
            rows == structure.deep_view(),
            keys == structure_keys(rows),
            sorted@ == sorted_keys(keys),
            sorted.len() == keys.len(),
            forall|j: int| 0 <= j < keys.len() ==> keys.contains(#[trigger] sorted@[j]),
            forall|id: i64| #[trigger]
                grouped(map@, id) == sorted@.take(i as int).filter(in_folder(id)).map_values(
                    child_id_at(rows),
                ),
        decreases sorted.len() - i,
    {
        let ghost before = map@;
        let k = sorted[i];
        assert(keys.contains(k));
        let ghost j = choose|j: int| 0 <= j < keys.len() && keys[j] == k;
        assert(k.index == j);
        let child = BookmarkRecordId::into_payload_id(structure[k.index].guid.as_str());
        put_under(&mut map, k.major, child);
        proof {
            assert forall|id: i64| #[trigger]
                grouped(map@, id) == sorted@.take(i + 1).filter(in_folder(id)).map_values(
                    child_id_at(rows),
                ) by {
                lemma_filter_step(sorted@, in_folder(id), i as int);
                let kept = sorted@.take(i as int).filter(in_folder(id));
                assert(grouped(before, id) == kept.map_values(child_id_at(rows)));
                if id == k.major {
                    assert(kept.push(k).map_values(child_id_at(rows)) =~= kept.map_values(
                        child_id_at(rows),
                    ).push(child@));
                }
            }
        }
        i += 1;
    }
    proof {
        lemma_take_all(sorted@);
    }
    map
}

fn tags_by_item(tags: &Vec<UploadTag>) -> (map: HashMap<i64, Vec<String>>)
    ensures
        forall|id: i64| #[trigger] grouped(map@, id) == staged_tags(tags.deep_view(), id),
{
    let ghost rows = tags.deep_view();
    let mut map: HashMap<i64, Vec<String>> = HashMap::new();
    let mut i: usize = 0;
    while i < tags.len()
        invariant
            i <= tags.len(),
            rows == tags.deep_view(),
            forall|id: i64| #[trigger]
                grouped(map@, id) == rows.take(i as int).filter(tags_item(id)).map_values(
                    |t: UploadTagModel| t.tag,
                ),
        decreases tags.len() - i,
    {
        let ghost before = map@;
        put_under(&mut map, tags[i].id, tags[i].tag.clone());
        proof {
            assert forall|id: i64| #[trigger]
                grouped(map@, id) == rows.take(i + 1).filter(tags_item(id)).map_values(
                    |t: UploadTagModel| t.tag,
                ) by {
                lemma_filter_step(rows, tags_item(id), i as int);
                let kept = rows.take(i as int).filter(tags_item(id));
                assert(grouped(before, id) == kept.map_values(|t: UploadTagModel| t.tag));
                if id == rows[i as int].id {
                    assert(kept.push(rows[i as int]).map_values(|t: UploadTagModel| t.tag)
                        =~= kept.map_values(|t: UploadTagModel| t.tag).push(rows[i as int].tag));
                }
            }
        }
        i += 1;
    }
    proof {
        lemma_take_all(rows);
    }
    map
}

fn record_for(
    u: &UploadItem,
    children: &HashMap<i64, Vec<String>>,
    tags: &HashMap<i64, Vec<String>>,
    Ghost(staged_structure): Ghost<Seq<UploadStructureModel>>,
    Ghost(staged): Ghost<Seq<UploadTagModel>>,
) -> (r: Result<Option<BookmarkItemRecord>, ErrorKind>)
    requires
        forall|id: i64| #[trigger] grouped(children@, id) == staged_children(staged_structure, id),
        forall|id: i64| #[trigger] grouped(tags@, id) == staged_tags(staged, id),
    ensures
        match outgoing_record(u.deep_view(), staged_structure, staged) {
            Ok(record) => r matches Ok(found) && found.deep_view() == record,
            Err(e) => r == Err::<Option<BookmarkItemRecord>, ErrorKind>(e),
        },
{
    if u.is_deleted {
        return Ok(
            Some(
                BookmarkItemRecord::Tombstone {
                    record_id: BookmarkRecordId::into_payload_id(u.guid.as_str()),
                },
            ),
        );
    }
    let (parent_guid, date_added, kind) = match (&u.parent_guid, u.date_added, u.kind) {
        (Some(parent_guid), Some(date_added), Some(kind)) => (parent_guid, date_added, kind),
        _ => {
            return Err(ErrorKind::Storage);
        },
    };
    let record_id = BookmarkRecordId::into_payload_id(u.guid.as_str());
    let parent_record_id = Some(BookmarkRecordId::into_payload_id(parent_guid.as_str()));
    let parent_title = Some(string_or_empty(&u.parent_title));
    let title = Some(string_or_empty(&u.title));
    match kind {
        SyncedBookmarkKind::Bookmark => match (u.id, &u.url) {
            (Some(id), Some(url)) => Ok(
                Some(
                    BookmarkItemRecord::Bookmark(
                        BookmarkRecord {
                            record_id,
                            parent_record_id,
                            parent_title,
                            date_added: Some(date_added),
                            has_dupe: true,
                            title,
                            url: Some(url.clone()),
                            keyword: clone_opt_string(&u.keyword),
                            tags: held_under(tags, id),
                        },
                    ),
                ),
            ),
            _ => Err(ErrorKind::Storage),
        },
        SyncedBookmarkKind::Query => match &u.url {
            Some(url) => Ok(
                Some(
                    BookmarkItemRecord::Query(
                        QueryRecord {
                            record_id,
                            parent_record_id,
                            parent_title,
                            date_added: Some(date_added),
                            has_dupe: true,
                            title,
                            url: Some(url.clone()),
                            tag_folder_name: None,
                        },
                    ),
                ),
            ),
            None => Err(ErrorKind::Storage),
        },
        SyncedBookmarkKind::Folder => match u.id {
            Some(id) => Ok(
                Some(
                    BookmarkItemRecord::Folder(
                        FolderRecord {
                            record_id,
                            parent_record_id,
                            parent_title,
                            date_added: Some(date_added),
                            has_dupe: true,
                            title,
                            children: held_under(children, id),
                        },
                    ),
                ),
            ),
            None => Err(ErrorKind::Storage),
        },
        SyncedBookmarkKind::Livemark => Ok(None),
        SyncedBookmarkKind::Separator => match u.position {
            Some(position) => Ok(
                Some(
                    BookmarkItemRecord::Separator(
                        SeparatorRecord {
                            record_id,
                            parent_record_id,
                            parent_title,
                            date_added: Some(date_added),
                            has_dupe: true,
                            position: Some(position),
                        },
                    ),
                ),
            ),
            None => Err(ErrorKind::Storage),
        },
    }
}

impl BookmarksStore {
    /// Inflates records for all staged outgoing items: a tombstone for each
    /// staged deletion, and for each other staged item but a livemark the
    /// record of its kind, in the order in which they are staged.
    pub fn fetch_outgoing_records(&self, timestamp: ServerTimestamp) -> (r: Result<
        OutgoingChangeset,
        ErrorKind,
    >)
        ensures
            self.interruptee.interrupted ==> r == Err::<OutgoingChangeset, ErrorKind>(
                ErrorKind::Interrupted,
            ),
            !self.interruptee.interrupted ==> match self.db@.outgoing() {
                Ok(records) => r matches Ok(out) && out.changes.deep_view() == records
                    && out.timestamp == timestamp && out.collection@ == "bookmarks"@,
                Err(e) => r == Err::<OutgoingChangeset, ErrorKind>(e),
            },
    {
        if self.interruptee.was_interrupted() {
            return Err(ErrorKind::Interrupted);
        }
        let mut outgoing = OutgoingChangeset::new(self.collection_name().to_owned(), timestamp);
        let children_by_parent = children_by_folder(&self.db.structure_to_upload);
        let tags_by_item = tags_by_item(&self.db.tags_to_upload);
        let ghost items = self.db.items_to_upload.deep_view();
        let ghost structure = self.db.structure_to_upload.deep_view();
        let ghost tags = self.db.tags_to_upload.deep_view();
        assert(outgoing.changes.deep_view() =~= Seq::empty());
        let mut i: usize = 0;
        while i < self.db.items_to_upload.len()
            invariant
                i <= self.db.items_to_upload.len(),
                !self.interruptee.interrupted,
                items == self.db.items_to_upload.deep_view(),
                structure == self.db.structure_to_upload.deep_view(),
                tags == self.db.tags_to_upload.deep_view(),
                forall|id: i64| #[trigger]
                    grouped(children_by_parent@, id) == staged_children(structure, id),
                forall|id: i64| #[trigger] grouped(tags_by_item@, id) == staged_tags(tags, id),
                outgoing.timestamp == timestamp,
                outgoing.collection@ == "bookmarks"@,
                outgoing_records(items, structure, tags, i as int) == Ok::<Seq<RecordModel>, ErrorKind>(
                    outgoing.changes.deep_view(),
                ),
            decreases self.db.items_to_upload.len() - i,
        {
            let ghost before = outgoing.changes.deep_view();
            match record_for(
                &self.db.items_to_upload[i],
                &children_by_parent,
                &tags_by_item,
                Ghost(structure),
                Ghost(tags),
            ) {
                Ok(Some(record)) => {
                    outgoing.changes.push(record);
                    assert(outgoing.changes.deep_view() =~= before.push(record.deep_view()));
                },
                Ok(None) => {},
                Err(e) => {
                    proof {
                        lemma_outgoing_error_stays(
                            items,
                            structure,
                            tags,
                            i as int + 1,
                            items.len() as int,
                        );
                    }
                    return Err(e);
                },
            }
            i += 1;
        }
        Ok(outgoing)
    }
}

/// Once a staged item cannot be read, the records of no longer list can.
pub proof fn lemma_outgoing_error_stays(
    items: Seq<UploadItemModel>,
    structure: Seq<UploadStructureModel>,
    tags: Seq<UploadTagModel>,
    n: int,
    m: int,
)
    requires
        n <= m,
        outgoing_records(items, structure, tags, n) is Err,
    ensures
        outgoing_records(items, structure, tags, m) == outgoing_records(items, structure, tags, n),
    decreases m - n,
{
    if n < m {
        lemma_outgoing_error_stays(items, structure, tags, n, m - 1);
    }
}

} // verus!
