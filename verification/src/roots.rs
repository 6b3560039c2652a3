//! The rows that a store always holds: the five roots of the local tree and
//! of the mirror.

use vstd::prelude::*;
use crate::db::{
    find_structure, find_synced, structure_index, synced_index, DbModel, Meta, PlacesDb,
};
use crate::guid::{root_guid, BookmarkRootGuid};
use crate::rows::{
    LocalItem, LocalItemModel, StructureRow, StructureRowModel, SyncedItem, SyncedItemModel,
};
use crate::types::{
    BookmarkType, ConnectionType, SyncStatus, SyncedBookmarkKind, SyncedBookmarkValidity,
};

verus! {

impl BookmarkRootGuid {
    /// The root's place among the children of the synthetic root; the
    /// synthetic root itself is at -1.
    pub open spec fn position(self) -> i64 {
        match self {
            BookmarkRootGuid::Root => -1i64,
            BookmarkRootGuid::Menu => 0,
            BookmarkRootGuid::Toolbar => 1,
            BookmarkRootGuid::Unfiled => 2,
            BookmarkRootGuid::Mobile => 3,
        }
    }

    /// The root's place among the children of the synthetic root.
    pub fn as_position(self) -> (r: i64)
        ensures
            r == self.position(),
    {
        match self {
            BookmarkRootGuid::Root => -1,
            BookmarkRootGuid::Menu => 0,
            BookmarkRootGuid::Toolbar => 1,
            BookmarkRootGuid::Unfiled => 2,
            BookmarkRootGuid::Mobile => 3,
        }
    }

    /// The key under which a new store keeps the root.
    pub open spec fn local_id(self) -> i64 {
        match self {
            BookmarkRootGuid::Root => 1,
            BookmarkRootGuid::Menu => 2,
            BookmarkRootGuid::Toolbar => 3,
            BookmarkRootGuid::Unfiled => 4,
            BookmarkRootGuid::Mobile => 5,
        }
    }
}

/// The mirror's row for a root. The synthetic root is its own parent there.
pub open spec fn synced_root(root: BookmarkRootGuid) -> SyncedItemModel {
    SyncedItemModel {
        guid: root.guid(),
        parent_guid: Some(root_guid()),
        kind: SyncedBookmarkKind::Folder,
        title: None,
        place_id: None,
        keyword: None,
        date_added: 0,
        server_modified: 0,
        needs_merge: false,
        is_deleted: false,
        validity: SyncedBookmarkValidity::Valid,
    }
}

/// The row that lists a root among the children of the synthetic root.
pub open spec fn root_structure(root: BookmarkRootGuid) -> StructureRowModel {
    StructureRowModel { guid: root.guid(), parent_guid: root_guid(), position: root.position() }
}

/// The row of a new store's local tree for a root.
pub open spec fn local_root(root: BookmarkRootGuid) -> LocalItemModel {
    LocalItemModel {
        id: root.local_id(),
        guid: root.guid(),
        parent: if root == BookmarkRootGuid::Root {
            None
        } else {
            Some(1i64)
        },
        position: if root == BookmarkRootGuid::Root {
            0
        } else {
            root.position()
        },
        typ: BookmarkType::Folder,
        title: None,
        place_id: None,
        date_added: 0,
        last_modified: 0,
        sync_change_counter: 1,
        sync_status: SyncStatus::New,
    }
}

impl DbModel {
    /// The store with the mirror's row for `root`, and with the row that
    /// lists it under the synthetic root, each added where it was missing.
    pub open spec fn with_synced_root(self, root: BookmarkRootGuid) -> DbModel {
        DbModel {
            synced: if synced_index(self.synced, root.guid()) is None {
                self.synced.push(synced_root(root))
            } else {
                self.synced
            },
            synced_structure: if structure_index(self.synced_structure, root_guid(), root.position()) is None {
                self.synced_structure.push(root_structure(root))
            } else {
                self.synced_structure
            },
            ..self
        }
    }

    /// The store with the mirror's rows for all five roots.
    pub open spec fn with_synced_roots(self) -> DbModel {
        self.with_synced_root(BookmarkRootGuid::Root).with_synced_root(
            BookmarkRootGuid::Menu,
        ).with_synced_root(BookmarkRootGuid::Toolbar).with_synced_root(
            BookmarkRootGuid::Unfiled,
        ).with_synced_root(BookmarkRootGuid::Mobile)
    }

    /// A store that holds the five roots and nothing else.
    pub open spec fn empty(conn_type: ConnectionType) -> DbModel {
        DbModel {
            conn_type,
            bookmarks: seq![
                local_root(BookmarkRootGuid::Root),
                local_root(BookmarkRootGuid::Menu),
                local_root(BookmarkRootGuid::Toolbar),
                local_root(BookmarkRootGuid::Unfiled),
                local_root(BookmarkRootGuid::Mobile),
            ],
            deleted: Seq::empty(),
            synced: Seq::empty(),
            synced_structure: Seq::empty(),
            synced_tags: Seq::empty(),
            places: Seq::empty(),
            stale_frecencies: Seq::empty(),
            tags: Seq::empty(),
            meta: crate::db::MetaModel {
                last_sync: None,
                global_sync_id: None,
                collection_sync_id: None,
            },
            items_to_upload: Seq::empty(),
            structure_to_upload: Seq::empty(),
            tags_to_upload: Seq::empty(),
        }.with_synced_roots()
    }
}

fn insert_synced_root(db: &mut PlacesDb, root: BookmarkRootGuid)
    ensures
        final(db)@ == old(db)@.with_synced_root(root),
{
    let guid = root.as_guid();
    let parent = BookmarkRootGuid::Root.as_guid();
    if find_synced(&db.synced, &guid).is_none() {
        db.synced.push(
            SyncedItem {
                guid: root.as_guid(),
                parent_guid: Some(BookmarkRootGuid::Root.as_guid()),
                kind: SyncedBookmarkKind::Folder,
                title: None,
                place_id: None,
                keyword: None,
                date_added: 0,
                server_modified: 0,
                needs_merge: false,
                is_deleted: false,
                validity: SyncedBookmarkValidity::Valid,
            },
        );
        assert(db.synced.deep_view() =~= old(db).synced.deep_view().push(synced_root(root)));
    }
    if find_structure(&db.synced_structure, &parent, root.as_position()).is_none() {
        db.synced_structure.push(
            StructureRow { guid, parent_guid: parent, position: root.as_position() },
        );
        assert(db.synced_structure.deep_view() =~= old(db).synced_structure.deep_view().push(
            root_structure(root),
        ));
    }
}

/// Adds to the mirror the rows of the five roots that it lacks.
pub fn create_synced_bookmark_roots(db: &mut PlacesDb)
    ensures
        final(db)@ == old(db)@.with_synced_roots(),
        old(db)@.has_unique_keys() ==> final(db)@.has_unique_keys(),
{
    proof {
        if db@.has_unique_keys() {
            crate::keys::lemma_with_synced_roots(db@);
        }
    }
    insert_synced_root(db, BookmarkRootGuid::Root);
    insert_synced_root(db, BookmarkRootGuid::Menu);
    insert_synced_root(db, BookmarkRootGuid::Toolbar);
    insert_synced_root(db, BookmarkRootGuid::Unfiled);
    insert_synced_root(db, BookmarkRootGuid::Mobile);
}

fn new_local_root(root: BookmarkRootGuid) -> (r: LocalItem)
    ensures
        r.deep_view() == local_root(root),
{
    let (id, parent, position): (i64, Option<i64>, i64) = match root {
        BookmarkRootGuid::Root => (1, None, 0),
        BookmarkRootGuid::Menu => (2, Some(1), 0),
        BookmarkRootGuid::Toolbar => (3, Some(1), 1),
        BookmarkRootGuid::Unfiled => (4, Some(1), 2),
        BookmarkRootGuid::Mobile => (5, Some(1), 3),
    };
    LocalItem {
        id,
        guid: root.as_guid(),
        parent,
        position,
        typ: BookmarkType::Folder,
        title: None,
        place_id: None,
        date_added: 0,
        last_modified: 0,
        sync_change_counter: 1,
        sync_status: SyncStatus::New,
    }
}

impl PlacesDb {
    /// A store that holds the five roots and nothing else.
    pub fn new(conn_type: ConnectionType) -> (db: PlacesDb)
        ensures
            db@ == DbModel::empty(conn_type),
            db@.has_unique_keys(),
            db@.local_tree_is_sound(),
    {
        proof {
            crate::keys::lemma_new_store_has_unique_keys(conn_type);
            crate::soundness::lemma_new_store_is_sound(conn_type);
        }
        let mut bookmarks: Vec<LocalItem> = Vec::new();
        bookmarks.push(new_local_root(BookmarkRootGuid::Root));
        bookmarks.push(new_local_root(BookmarkRootGuid::Menu));
        bookmarks.push(new_local_root(BookmarkRootGuid::Toolbar));
        bookmarks.push(new_local_root(BookmarkRootGuid::Unfiled));
        bookmarks.push(new_local_root(BookmarkRootGuid::Mobile));
        let mut db = PlacesDb {
            conn_type,
            bookmarks,
            deleted: Vec::new(),
            synced: Vec::new(),
            synced_structure: Vec::new(),
            synced_tags: Vec::new(),
            places: Vec::new(),
            stale_frecencies: Vec::new(),
            tags: Vec::new(),
            meta: Meta { last_sync: None, global_sync_id: None, collection_sync_id: None },
            items_to_upload: Vec::new(),
            structure_to_upload: Vec::new(),
            tags_to_upload: Vec::new(),
        };
        assert(db.bookmarks.deep_view() =~= DbModel::empty(conn_type).bookmarks);
        assert(db.deleted.deep_view() =~= Seq::empty());
        assert(db.synced.deep_view() =~= Seq::empty());
        assert(db.synced_structure.deep_view() =~= Seq::empty());
        assert(db.synced_tags.deep_view() =~= Seq::empty());
        assert(db.places.deep_view() =~= Seq::empty());
        assert(db.stale_frecencies.deep_view() =~= Seq::empty());
        assert(db.tags.deep_view() =~= Seq::empty());
        assert(db.items_to_upload.deep_view() =~= Seq::empty());
        assert(db.structure_to_upload.deep_view() =~= Seq::empty());
        assert(db.tags_to_upload.deep_view() =~= Seq::empty());
        create_synced_bookmark_roots(&mut db);
        db
    }
}

} // verus!
