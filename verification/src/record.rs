//! Records of the bookmarks collection, as the sync client hands them in and
//! takes them back, and the changesets that carry them.

use vstd::prelude::*;
use crate::types::ServerTimestamp;

verus! {

/// A bookmark record.
#[derive(Debug)]
pub struct BookmarkRecord {
    pub record_id: String,
    pub parent_record_id: Option<String>,
    pub parent_title: Option<String>,
    pub date_added: Option<i64>,
    pub has_dupe: bool,
    pub title: Option<String>,
    pub url: Option<String>,
    pub keyword: Option<String>,
    pub tags: Vec<String>,
}

/// A query record: a bookmark whose URL has the `place:` scheme.
#[derive(Debug)]
pub struct QueryRecord {
    pub record_id: String,
    pub parent_record_id: Option<String>,
    pub parent_title: Option<String>,
    pub date_added: Option<i64>,
    pub has_dupe: bool,
    pub title: Option<String>,
    pub url: Option<String>,
    pub tag_folder_name: Option<String>,
}

/// A folder record, with the record ids of its children in order.
#[derive(Debug)]
pub struct FolderRecord {
    pub record_id: String,
    pub parent_record_id: Option<String>,
    pub parent_title: Option<String>,
    pub date_added: Option<i64>,
    pub has_dupe: bool,
    pub title: Option<String>,
    pub children: Vec<String>,
}

/// A livemark record. The kind is obsolete: such records are staged and
/// never applied.
#[derive(Debug)]
pub struct LivemarkRecord {
    pub record_id: String,
    pub parent_record_id: Option<String>,
    pub parent_title: Option<String>,
    pub date_added: Option<i64>,
    pub has_dupe: bool,
    pub title: Option<String>,
}

/// A separator record.
#[derive(Debug)]
pub struct SeparatorRecord {
    pub record_id: String,
    pub parent_record_id: Option<String>,
    pub parent_title: Option<String>,
    pub date_added: Option<i64>,
    pub has_dupe: bool,
    pub position: Option<i64>,
}

/// A record of the bookmarks collection.
#[derive(Debug)]
pub enum BookmarkItemRecord {
    /// The item was deleted.
    Tombstone { record_id: String },
    Bookmark(BookmarkRecord),
    Query(QueryRecord),
    Folder(FolderRecord),
    Livemark(LivemarkRecord),
    Separator(SeparatorRecord),
    /// A record of a kind that this engine does not know.
    Unknown { record_id: String },
}

pub ghost struct BookmarkRecordModel {
    pub record_id: Seq<char>,
    pub parent_record_id: Option<Seq<char>>,
    pub parent_title: Option<Seq<char>>,
    pub date_added: Option<i64>,
    pub has_dupe: bool,
    pub title: Option<Seq<char>>,
    pub url: Option<Seq<char>>,
    pub keyword: Option<Seq<char>>,
    pub tags: Seq<Seq<char>>,
}

pub ghost struct QueryRecordModel {
    pub record_id: Seq<char>,
    pub parent_record_id: Option<Seq<char>>,
    pub parent_title: Option<Seq<char>>,
    pub date_added: Option<i64>,
    pub has_dupe: bool,
    pub title: Option<Seq<char>>,
    pub url: Option<Seq<char>>,
    pub tag_folder_name: Option<Seq<char>>,
}

pub ghost struct FolderRecordModel {
    pub record_id: Seq<char>,
    pub parent_record_id: Option<Seq<char>>,
    pub parent_title: Option<Seq<char>>,
    pub date_added: Option<i64>,
    pub has_dupe: bool,
    pub title: Option<Seq<char>>,
    pub children: Seq<Seq<char>>,
}

pub ghost struct LivemarkRecordModel {
    pub record_id: Seq<char>,
    pub parent_record_id: Option<Seq<char>>,
    pub parent_title: Option<Seq<char>>,
    pub date_added: Option<i64>,
    pub has_dupe: bool,
    pub title: Option<Seq<char>>,
}

pub ghost struct SeparatorRecordModel {
    pub record_id: Seq<char>,
    pub parent_record_id: Option<Seq<char>>,
    pub parent_title: Option<Seq<char>>,
    pub date_added: Option<i64>,
    pub has_dupe: bool,
    pub position: Option<i64>,
}

/// What a record says, with every string as its text.
pub ghost enum RecordModel {
    Tombstone { record_id: Seq<char> },
    Bookmark(BookmarkRecordModel),
    Query(QueryRecordModel),
    Folder(FolderRecordModel),
    Livemark(LivemarkRecordModel),
    Separator(SeparatorRecordModel),
    Unknown { record_id: Seq<char> },
}

impl RecordModel {
    /// The id of the record's item, as the wire spells it.
    pub open spec fn record_id(self) -> Seq<char> {
        match self {
            RecordModel::Tombstone { record_id } => record_id,
            RecordModel::Bookmark(b) => b.record_id,
            RecordModel::Query(q) => q.record_id,
            RecordModel::Folder(f) => f.record_id,
            RecordModel::Livemark(l) => l.record_id,
            RecordModel::Separator(s) => s.record_id,
            RecordModel::Unknown { record_id } => record_id,
        }
    }

    /// Whether the record marks a deletion.
    pub open spec fn is_tombstone(self) -> bool {
        self is Tombstone
    }
}

impl DeepView for BookmarkRecord {
    type V = BookmarkRecordModel;

    open spec fn deep_view(&self) -> BookmarkRecordModel {
        BookmarkRecordModel {
            record_id: self.record_id@,
            parent_record_id: self.parent_record_id.deep_view(),
            parent_title: self.parent_title.deep_view(),
            date_added: self.date_added,
            has_dupe: self.has_dupe,
            title: self.title.deep_view(),
            url: self.url.deep_view(),
            keyword: self.keyword.deep_view(),
            tags: self.tags.deep_view(),
        }
    }
}

impl DeepView for QueryRecord {
    type V = QueryRecordModel;

    open spec fn deep_view(&self) -> QueryRecordModel {
        QueryRecordModel {
            record_id: self.record_id@,
            parent_record_id: self.parent_record_id.deep_view(),
            parent_title: self.parent_title.deep_view(),
            date_added: self.date_added,
            has_dupe: self.has_dupe,
            title: self.title.deep_view(),
            url: self.url.deep_view(),
            tag_folder_name: self.tag_folder_name.deep_view(),
        }
    }
}

impl DeepView for FolderRecord {
    type V = FolderRecordModel;

    open spec fn deep_view(&self) -> FolderRecordModel {
        FolderRecordModel {
            record_id: self.record_id@,
            parent_record_id: self.parent_record_id.deep_view(),
            parent_title: self.parent_title.deep_view(),
            date_added: self.date_added,
            has_dupe: self.has_dupe,
            title: self.title.deep_view(),
            children: self.children.deep_view(),
        }
    }
}

impl DeepView for LivemarkRecord {
    type V = LivemarkRecordModel;

    open spec fn deep_view(&self) -> LivemarkRecordModel {
        LivemarkRecordModel {
            record_id: self.record_id@,
            parent_record_id: self.parent_record_id.deep_view(),
            parent_title: self.parent_title.deep_view(),
            date_added: self.date_added,
            has_dupe: self.has_dupe,
            title: self.title.deep_view(),
        }
    }
}

impl DeepView for SeparatorRecord {
    type V = SeparatorRecordModel;

    open spec fn deep_view(&self) -> SeparatorRecordModel {
        SeparatorRecordModel {
            record_id: self.record_id@,
            parent_record_id: self.parent_record_id.deep_view(),
            parent_title: self.parent_title.deep_view(),
            date_added: self.date_added,
            has_dupe: self.has_dupe,
            position: self.position,
        }
    }
}

impl DeepView for BookmarkItemRecord {
    type V = RecordModel;

    open spec fn deep_view(&self) -> RecordModel {
        match self {
            BookmarkItemRecord::Tombstone { record_id } => RecordModel::Tombstone {
                record_id: record_id@,
            },
            BookmarkItemRecord::Bookmark(b) => RecordModel::Bookmark(b.deep_view()),
            BookmarkItemRecord::Query(q) => RecordModel::Query(q.deep_view()),
            BookmarkItemRecord::Folder(f) => RecordModel::Folder(f.deep_view()),
            BookmarkItemRecord::Livemark(l) => RecordModel::Livemark(l.deep_view()),
            BookmarkItemRecord::Separator(s) => RecordModel::Separator(s.deep_view()),
            BookmarkItemRecord::Unknown { record_id } => RecordModel::Unknown {
                record_id: record_id@,
            },
        }
    }
}

impl BookmarkItemRecord {
    /// The id of the record's item, as the wire spells it.
    pub fn id(&self) -> (r: &String)
        ensures
            r@ == self.deep_view().record_id(),
    {
        match self {
            BookmarkItemRecord::Tombstone { record_id } => record_id,
            BookmarkItemRecord::Bookmark(b) => &b.record_id,
            BookmarkItemRecord::Query(q) => &q.record_id,
            BookmarkItemRecord::Folder(f) => &f.record_id,
            BookmarkItemRecord::Livemark(l) => &l.record_id,
            BookmarkItemRecord::Separator(s) => &s.record_id,
            BookmarkItemRecord::Unknown { record_id } => record_id,
        }
    }

    /// Whether the record marks a deletion.
    pub fn is_tombstone(&self) -> (r: bool)
        ensures
            r == self.deep_view().is_tombstone(),
    {
        match self {
            BookmarkItemRecord::Tombstone { .. } => true,
            _ => false,
        }
    }
}

/// One incoming record with the time at which the server last saw it change.
#[derive(Debug)]
pub struct IncomingChange {
    pub record: BookmarkItemRecord,
    pub server_modified: ServerTimestamp,
}

impl DeepView for IncomingChange {
    type V = (RecordModel, i64);

    open spec fn deep_view(&self) -> (RecordModel, i64) {
        (self.record.deep_view(), self.server_modified.0)
    }
}

/// The records that the server holds and this client has not seen.
#[derive(Debug)]
pub struct IncomingChangeset {
    pub collection: String,
    pub timestamp: ServerTimestamp,
    pub changes: Vec<IncomingChange>,
}

impl IncomingChangeset {
    /// A changeset without records.
    pub fn new(collection: String, timestamp: ServerTimestamp) -> (r: Self)
        ensures
            r.collection@ == collection@,
            r.timestamp == timestamp,
            r.changes@.len() == 0,
    {
        IncomingChangeset { collection, timestamp, changes: Vec::new() }
    }
}

/// The records that this client has for the server.
#[derive(Debug)]
pub struct OutgoingChangeset {
    pub collection: String,
    pub timestamp: ServerTimestamp,
    pub changes: Vec<BookmarkItemRecord>,
}

impl OutgoingChangeset {
    /// A changeset without records.
    pub fn new(collection: String, timestamp: ServerTimestamp) -> (r: Self)
        ensures
            r.collection@ == collection@,
            r.timestamp == timestamp,
            r.changes@.len() == 0,
    {
        OutgoingChangeset { collection, timestamp, changes: Vec::new() }
    }
}

/// What to ask the server for.
#[derive(Debug)]
pub struct CollectionRequest {
    pub collection: String,
    pub full: bool,
    pub newer_than: Option<ServerTimestamp>,
}

/// The ids that tie a store to one state of the server's collection.
#[derive(Debug)]
pub struct CollSyncIds {
    pub global: String,
    pub coll: String,
}

/// Whether the store is tied to a server, and to which state of it.
#[derive(Debug)]
pub enum StoreSyncAssociation {
    Disconnected,
    Connected(CollSyncIds),
}

impl DeepView for StoreSyncAssociation {
    type V = Option<(Seq<char>, Seq<char>)>;

    open spec fn deep_view(&self) -> Option<(Seq<char>, Seq<char>)> {
        match self {
            StoreSyncAssociation::Disconnected => None,
            StoreSyncAssociation::Connected(ids) => Some((ids.global@, ids.coll@)),
        }
    }
}

} // verus!
