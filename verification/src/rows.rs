//! The rows of the store's tables. Each row type has a model, which says
//! what the row holds with every string as its text.

use vstd::prelude::*;
use crate::text::clone_opt_string;
use crate::types::{BookmarkType, SyncStatus, SyncedBookmarkKind, SyncedBookmarkValidity};

verus! {

/// An item of the local tree.
#[derive(Debug)]
pub struct LocalItem {
    /// The item's key.
    pub id: i64,
    /// The item's stable identifier.
    pub guid: String,
    /// The key of the folder that holds the item; the synthetic root has none.
    pub parent: Option<i64>,
    /// The item's place among its parent's children.
    pub position: i64,
    pub typ: BookmarkType,
    pub title: Option<String>,
    /// The key of the item's URL, for a bookmark.
    pub place_id: Option<i64>,
    /// In milliseconds.
    pub date_added: i64,
    /// In milliseconds.
    pub last_modified: i64,
    /// How many local changes the server has not confirmed.
    pub sync_change_counter: u32,
    pub sync_status: SyncStatus,
}

/// What a `LocalItem` says, with every string as its text.
pub ghost struct LocalItemModel {
    pub id: i64,
    pub guid: Seq<char>,
    pub parent: Option<i64>,
    pub position: i64,
    pub typ: BookmarkType,
    pub title: Option<Seq<char>>,
    pub place_id: Option<i64>,
    pub date_added: i64,
    pub last_modified: i64,
    pub sync_change_counter: u32,
    pub sync_status: SyncStatus,
}

impl DeepView for LocalItem {
    type V = LocalItemModel;

    open spec fn deep_view(&self) -> LocalItemModel {
        LocalItemModel {
            id: self.id,
            guid: self.guid@,
            parent: self.parent,
            position: self.position,
            typ: self.typ,
            title: self.title.deep_view(),
            place_id: self.place_id,
            date_added: self.date_added,
            last_modified: self.last_modified,
            sync_change_counter: self.sync_change_counter,
            sync_status: self.sync_status,
        }
    }
}

impl LocalItem {
    /// A copy of the row.
    pub fn duplicate(&self) -> (r: LocalItem)
        ensures
            r.deep_view() == self.deep_view(),
    {
        LocalItem {
            id: self.id,
            guid: self.guid.clone(),
            parent: self.parent,
            position: self.position,
            typ: self.typ,
            title: clone_opt_string(&self.title),
            place_id: self.place_id,
            date_added: self.date_added,
            last_modified: self.last_modified,
            sync_change_counter: self.sync_change_counter,
            sync_status: self.sync_status,
        }
    }
}

/// The record of a local deletion that the server has yet to hear of.
#[derive(Debug)]
pub struct Tombstone {
    pub guid: String,
    /// In milliseconds.
    pub date_removed: i64,
}

/// What a `Tombstone` says, with every string as its text.
pub ghost struct TombstoneModel {
    pub guid: Seq<char>,
    pub date_removed: i64,
}

impl DeepView for Tombstone {
    type V = TombstoneModel;

    open spec fn deep_view(&self) -> TombstoneModel {
        TombstoneModel {
            guid: self.guid@,
            date_removed: self.date_removed,
        }
    }
}

impl Tombstone {
    /// A copy of the row.
    pub fn duplicate(&self) -> (r: Tombstone)
        ensures
            r.deep_view() == self.deep_view(),
    {
        Tombstone {
            guid: self.guid.clone(),
            date_removed: self.date_removed,
        }
    }
}

/// A row of the mirror: an item as the server last had it.
#[derive(Debug)]
pub struct SyncedItem {
    pub guid: String,
    /// The parent that the item's own record names.
    pub parent_guid: Option<String>,
    pub kind: SyncedBookmarkKind,
    pub title: Option<String>,
    pub place_id: Option<i64>,
    pub keyword: Option<String>,
    /// In milliseconds.
    pub date_added: i64,
    /// In milliseconds.
    pub server_modified: i64,
    /// Whether the server's side changed since the last merge.
    pub needs_merge: bool,
    /// Whether the row is a tombstone.
    pub is_deleted: bool,
    pub validity: SyncedBookmarkValidity,
}

/// What a `SyncedItem` says, with every string as its text.
pub ghost struct SyncedItemModel {
    pub guid: Seq<char>,
    pub parent_guid: Option<Seq<char>>,
    pub kind: SyncedBookmarkKind,
    pub title: Option<Seq<char>>,
    pub place_id: Option<i64>,
    pub keyword: Option<Seq<char>>,
    pub date_added: i64,
    pub server_modified: i64,
    pub needs_merge: bool,
    pub is_deleted: bool,
    pub validity: SyncedBookmarkValidity,
}

impl DeepView for SyncedItem {
    type V = SyncedItemModel;

    open spec fn deep_view(&self) -> SyncedItemModel {
        SyncedItemModel {
            guid: self.guid@,
            parent_guid: self.parent_guid.deep_view(),
            kind: self.kind,
            title: self.title.deep_view(),
            place_id: self.place_id,
            keyword: self.keyword.deep_view(),
            date_added: self.date_added,
            server_modified: self.server_modified,
            needs_merge: self.needs_merge,
            is_deleted: self.is_deleted,
            validity: self.validity,
        }
    }
}

impl SyncedItem {
    /// A copy of the row.
    pub fn duplicate(&self) -> (r: SyncedItem)
        ensures
            r.deep_view() == self.deep_view(),
    {
        SyncedItem {
            guid: self.guid.clone(),
            parent_guid: clone_opt_string(&self.parent_guid),
            kind: self.kind,
            title: clone_opt_string(&self.title),
            place_id: self.place_id,
            keyword: clone_opt_string(&self.keyword),
            date_added: self.date_added,
            server_modified: self.server_modified,
            needs_merge: self.needs_merge,
            is_deleted: self.is_deleted,
            validity: self.validity,
        }
    }
}

/// One child of a folder, as the folder's record lists it.
#[derive(Debug)]
pub struct StructureRow {
    /// The child.
    pub guid: String,
    /// The folder.
    pub parent_guid: String,
    pub position: i64,
}

/// What a `StructureRow` says, with every string as its text.
pub ghost struct StructureRowModel {
    pub guid: Seq<char>,
    pub parent_guid: Seq<char>,
    pub position: i64,
}

impl DeepView for StructureRow {
    type V = StructureRowModel;

    open spec fn deep_view(&self) -> StructureRowModel {
        StructureRowModel {
            guid: self.guid@,
            parent_guid: self.parent_guid@,
            position: self.position,
        }
    }
}

impl StructureRow {
    /// A copy of the row.
    pub fn duplicate(&self) -> (r: StructureRow)
        ensures
            r.deep_view() == self.deep_view(),
    {
        StructureRow {
            guid: self.guid.clone(),
            parent_guid: self.parent_guid.clone(),
            position: self.position,
        }
    }
}

/// A tag on an item of the mirror.
#[derive(Debug)]
pub struct SyncedTag {
    pub guid: String,
    pub tag: String,
}

/// What a `SyncedTag` says, with every string as its text.
pub ghost struct SyncedTagModel {
    pub guid: Seq<char>,
    pub tag: Seq<char>,
}

impl DeepView for SyncedTag {
    type V = SyncedTagModel;

    open spec fn deep_view(&self) -> SyncedTagModel {
        SyncedTagModel {
            guid: self.guid@,
            tag: self.tag@,
        }
    }
}

impl SyncedTag {
    /// A copy of the row.
    pub fn duplicate(&self) -> (r: SyncedTag)
        ensures
            r.deep_view() == self.deep_view(),
    {
        SyncedTag {
            guid: self.guid.clone(),
            tag: self.tag.clone(),
        }
    }
}

/// A URL.
#[derive(Debug)]
pub struct Place {
    pub id: i64,
    pub url: String,
    pub frecency: i32,
}

/// What a `Place` says, with every string as its text.
pub ghost struct PlaceModel {
    pub id: i64,
    pub url: Seq<char>,
    pub frecency: i32,
}

impl DeepView for Place {
    type V = PlaceModel;

    open spec fn deep_view(&self) -> PlaceModel {
        PlaceModel {
            id: self.id,
            url: self.url@,
            frecency: self.frecency,
        }
    }
}

impl Place {
    /// A copy of the row.
    pub fn duplicate(&self) -> (r: Place)
        ensures
            r.deep_view() == self.deep_view(),
    {
        Place {
            id: self.id,
            url: self.url.clone(),
            frecency: self.frecency,
        }
    }
}

/// A URL whose frecency is out of date.
#[derive(Debug)]
pub struct StaleFrecency {
    pub place_id: i64,
    /// In milliseconds.
    pub stale_at: i64,
}

/// What a `StaleFrecency` says, with every string as its text.
pub ghost struct StaleFrecencyModel {
    pub place_id: i64,
    pub stale_at: i64,
}

impl DeepView for StaleFrecency {
    type V = StaleFrecencyModel;

    open spec fn deep_view(&self) -> StaleFrecencyModel {
        StaleFrecencyModel {
            place_id: self.place_id,
            stale_at: self.stale_at,
        }
    }
}

impl StaleFrecency {
    /// A copy of the row.
    pub fn duplicate(&self) -> (r: StaleFrecency)
        ensures
            r.deep_view() == self.deep_view(),
    {
        StaleFrecency {
            place_id: self.place_id,
            stale_at: self.stale_at,
        }
    }
}

/// A tag on a URL.
#[derive(Debug)]
pub struct TagRelation {
    pub place_id: i64,
    pub tag: String,
}

/// What a `TagRelation` says, with every string as its text.
pub ghost struct TagRelationModel {
    pub place_id: i64,
    pub tag: Seq<char>,
}

impl DeepView for TagRelation {
    type V = TagRelationModel;

    open spec fn deep_view(&self) -> TagRelationModel {
        TagRelationModel {
            place_id: self.place_id,
            tag: self.tag@,
        }
    }
}

impl TagRelation {
    /// A copy of the row.
    pub fn duplicate(&self) -> (r: TagRelation)
        ensures
            r.deep_view() == self.deep_view(),
    {
        TagRelation {
            place_id: self.place_id,
            tag: self.tag.clone(),
        }
    }
}

/// An item staged for upload: a snapshot of the local item, or a tombstone.
#[derive(Debug)]
pub struct UploadItem {
    /// The local item's key; a tombstone has none.
    pub id: Option<i64>,
    pub guid: String,
    /// The local item's counter when it was staged.
    pub sync_change_counter: u32,
    pub parent_guid: Option<String>,
    pub parent_title: Option<String>,
    pub date_added: Option<i64>,
    pub title: Option<String>,
    pub place_id: Option<i64>,
    pub kind: Option<SyncedBookmarkKind>,
    pub url: Option<String>,
    pub keyword: Option<String>,
    pub position: Option<i64>,
    pub is_deleted: bool,
    /// Set once the server has taken the record.
    pub uploaded_at: Option<i64>,
}

/// What a `UploadItem` says, with every string as its text.
pub ghost struct UploadItemModel {
    pub id: Option<i64>,
    pub guid: Seq<char>,
    pub sync_change_counter: u32,
    pub parent_guid: Option<Seq<char>>,
    pub parent_title: Option<Seq<char>>,
    pub date_added: Option<i64>,
    pub title: Option<Seq<char>>,
    pub place_id: Option<i64>,
    pub kind: Option<SyncedBookmarkKind>,
    pub url: Option<Seq<char>>,
    pub keyword: Option<Seq<char>>,
    pub position: Option<i64>,
    pub is_deleted: bool,
    pub uploaded_at: Option<i64>,
}

impl DeepView for UploadItem {
    type V = UploadItemModel;

    open spec fn deep_view(&self) -> UploadItemModel {
        UploadItemModel {
            id: self.id,
            guid: self.guid@,
            sync_change_counter: self.sync_change_counter,
            parent_guid: self.parent_guid.deep_view(),
            parent_title: self.parent_title.deep_view(),
            date_added: self.date_added,
            title: self.title.deep_view(),
            place_id: self.place_id,
            kind: self.kind,
            url: self.url.deep_view(),
            keyword: self.keyword.deep_view(),
            position: self.position,
            is_deleted: self.is_deleted,
            uploaded_at: self.uploaded_at,
        }
    }
}

impl UploadItem {
    /// A copy of the row.
    pub fn duplicate(&self) -> (r: UploadItem)
        ensures
            r.deep_view() == self.deep_view(),
    {
        UploadItem {
            id: self.id,
            guid: self.guid.clone(),
            sync_change_counter: self.sync_change_counter,
            parent_guid: clone_opt_string(&self.parent_guid),
            parent_title: clone_opt_string(&self.parent_title),
            date_added: self.date_added,
            title: clone_opt_string(&self.title),
            place_id: self.place_id,
            kind: self.kind,
            url: clone_opt_string(&self.url),
            keyword: clone_opt_string(&self.keyword),
            position: self.position,
            is_deleted: self.is_deleted,
            uploaded_at: self.uploaded_at,
        }
    }
}

/// One child of a folder staged for upload.
#[derive(Debug)]
pub struct UploadStructure {
    /// The child.
    pub guid: String,
    /// The key of the folder.
    pub parent_id: i64,
    pub position: i64,
}

/// What a `UploadStructure` says, with every string as its text.
pub ghost struct UploadStructureModel {
    pub guid: Seq<char>,
    pub parent_id: i64,
    pub position: i64,
}

impl DeepView for UploadStructure {
    type V = UploadStructureModel;

    open spec fn deep_view(&self) -> UploadStructureModel {
        UploadStructureModel {
            guid: self.guid@,
            parent_id: self.parent_id,
            position: self.position,
        }
    }
}

impl UploadStructure {
    /// A copy of the row.
    pub fn duplicate(&self) -> (r: UploadStructure)
        ensures
            r.deep_view() == self.deep_view(),
    {
        UploadStructure {
            guid: self.guid.clone(),
            parent_id: self.parent_id,
            position: self.position,
        }
    }
}

/// A tag of an item staged for upload.
#[derive(Debug)]
pub struct UploadTag {
    /// The key of the item.
    pub id: i64,
    pub tag: String,
}

/// What a `UploadTag` says, with every string as its text.
pub ghost struct UploadTagModel {
    pub id: i64,
    pub tag: Seq<char>,
}

impl DeepView for UploadTag {
    type V = UploadTagModel;

    open spec fn deep_view(&self) -> UploadTagModel {
        UploadTagModel {
            id: self.id,
            tag: self.tag@,
        }
    }
}

impl UploadTag {
    /// A copy of the row.
    pub fn duplicate(&self) -> (r: UploadTag)
        ensures
            r.deep_view() == self.deep_view(),
    {
        UploadTag {
            id: self.id,
            tag: self.tag.clone(),
        }
    }
}

/// One node of the merged tree, below the synthetic root.
#[derive(Debug)]
pub struct MergedRow {
    /// The guid of the node's local side, if it has one.
    pub local_guid: Option<String>,
    /// The guid of the node's remote side, if it has one.
    pub remote_guid: Option<String>,
    /// The guid under which the node is kept.
    pub merged_guid: String,
    pub merged_parent_guid: String,
    /// The synthetic root is at level 0.
    pub level: i64,
    /// The node's place among its merged parent's children.
    pub position: i64,
    /// Whether the remote side is taken.
    pub use_remote: bool,
    /// Whether the node goes back to the server.
    pub should_upload: bool,
}

/// What a `MergedRow` says, with every string as its text.
pub ghost struct MergedRowModel {
    pub local_guid: Option<Seq<char>>,
    pub remote_guid: Option<Seq<char>>,
    pub merged_guid: Seq<char>,
    pub merged_parent_guid: Seq<char>,
    pub level: i64,
    pub position: i64,
    pub use_remote: bool,
    pub should_upload: bool,
}

impl DeepView for MergedRow {
    type V = MergedRowModel;

    open spec fn deep_view(&self) -> MergedRowModel {
        MergedRowModel {
            local_guid: self.local_guid.deep_view(),
            remote_guid: self.remote_guid.deep_view(),
            merged_guid: self.merged_guid@,
            merged_parent_guid: self.merged_parent_guid@,
            level: self.level,
            position: self.position,
            use_remote: self.use_remote,
            should_upload: self.should_upload,
        }
    }
}

impl MergedRow {
    /// A copy of the row.
    pub fn duplicate(&self) -> (r: MergedRow)
        ensures
            r.deep_view() == self.deep_view(),
    {
        MergedRow {
            local_guid: clone_opt_string(&self.local_guid),
            remote_guid: clone_opt_string(&self.remote_guid),
            merged_guid: self.merged_guid.clone(),
            merged_parent_guid: self.merged_parent_guid.clone(),
            level: self.level,
            position: self.position,
            use_remote: self.use_remote,
            should_upload: self.should_upload,
        }
    }
}

/// A deletion that the merge accepted.
#[derive(Debug)]
pub struct RemovalRow {
    pub guid: String,
    /// The level of the item in the local tree, or -1.
    pub local_level: i64,
    /// Whether the server has yet to hear of the deletion.
    pub should_upload_tombstone: bool,
}

/// What a `RemovalRow` says, with every string as its text.
pub ghost struct RemovalRowModel {
    pub guid: Seq<char>,
    pub local_level: i64,
    pub should_upload_tombstone: bool,
}

impl DeepView for RemovalRow {
    type V = RemovalRowModel;

    open spec fn deep_view(&self) -> RemovalRowModel {
        RemovalRowModel {
            guid: self.guid@,
            local_level: self.local_level,
            should_upload_tombstone: self.should_upload_tombstone,
        }
    }
}

impl RemovalRow {
    /// A copy of the row.
    pub fn duplicate(&self) -> (r: RemovalRow)
        ensures
            r.deep_view() == self.deep_view(),
    {
        RemovalRow {
            guid: self.guid.clone(),
            local_level: self.local_level,
            should_upload_tombstone: self.should_upload_tombstone,
        }
    }
}

} // verus!
