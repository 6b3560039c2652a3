//! A copy of the store, to go back to where an operation must not leave a
//! trace.

use vstd::prelude::*;
use crate::db::{Meta, PlacesDb};
use crate::rows::{
    LocalItem, Place, StaleFrecency, StructureRow, SyncedItem, SyncedTag, TagRelation, Tombstone,
    UploadItem, UploadStructure, UploadTag,
};
use crate::text::clone_opt_string;

verus! {

/// A row of a table, of which a copy can be made.
pub trait Row: DeepView + Sized {
    /// A copy of the row: it says what the row says.
    fn copy_row(&self) -> (r: Self)
        ensures
            r.deep_view() == self.deep_view(),
    ;
}

impl Row for LocalItem {
    fn copy_row(&self) -> (r: Self) {
        self.duplicate()
    }
}

impl Row for Tombstone {
    fn copy_row(&self) -> (r: Self) {
        self.duplicate()
    }
}

impl Row for SyncedItem {
    fn copy_row(&self) -> (r: Self) {
        self.duplicate()
    }
}

impl Row for StructureRow {
    fn copy_row(&self) -> (r: Self) {
        self.duplicate()
    }
}

impl Row for SyncedTag {
    fn copy_row(&self) -> (r: Self) {
        self.duplicate()
    }
}

impl Row for Place {
    fn copy_row(&self) -> (r: Self) {
        self.duplicate()
    }
}

impl Row for StaleFrecency {
    fn copy_row(&self) -> (r: Self) {
        self.duplicate()
    }
}

impl Row for TagRelation {
    fn copy_row(&self) -> (r: Self) {
        self.duplicate()
    }
}

impl Row for UploadItem {
    fn copy_row(&self) -> (r: Self) {
        self.duplicate()
    }
}

impl Row for UploadStructure {
    fn copy_row(&self) -> (r: Self) {
        self.duplicate()
    }
}

impl Row for UploadTag {
    fn copy_row(&self) -> (r: Self) {
        self.duplicate()
    }
}

/// A copy of a table, row by row.
pub fn copy_rows<T: Row>(rows: &Vec<T>) -> (copy: Vec<T>)
    ensures
        copy.deep_view() == rows.deep_view(),
{
    let mut copy: Vec<T> = Vec::new();
    let mut n: usize = 0;
    while n < rows.len()
        invariant
            n <= rows.len(),
            copy.len() == n,
            forall|j: int| 0 <= j < n ==> (#[trigger] copy[j]).deep_view() == rows[j].deep_view(),
        decreases rows.len() - n,
    {
        copy.push(rows[n].copy_row());
        n += 1;
    }
    assert(copy.deep_view() =~= rows.deep_view());
    copy
}

impl PlacesDb {
    /// A copy of the store.
    pub fn duplicate(&self) -> (copy: PlacesDb)
        ensures
            copy@ == self@,
    {
        PlacesDb {
            conn_type: self.conn_type,
            bookmarks: copy_rows(&self.bookmarks),
            deleted: copy_rows(&self.deleted),
            synced: copy_rows(&self.synced),
            synced_structure: copy_rows(&self.synced_structure),
            synced_tags: copy_rows(&self.synced_tags),
            places: copy_rows(&self.places),
            stale_frecencies: copy_rows(&self.stale_frecencies),
            tags: copy_rows(&self.tags),
            items_to_upload: copy_rows(&self.items_to_upload),
            structure_to_upload: copy_rows(&self.structure_to_upload),
            tags_to_upload: copy_rows(&self.tags_to_upload),
            meta: Meta {
                last_sync: self.meta.last_sync,
                global_sync_id: clone_opt_string(&self.meta.global_sync_id),
                collection_sync_id: clone_opt_string(&self.meta.collection_sync_id),
            },
        }
    }
}

} // verus!
