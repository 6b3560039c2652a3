//! The bookmarks store, as the sync client drives it.

use vstd::prelude::*;
use crate::db::PlacesDb;
use crate::error::ErrorKind;
use crate::record::{CollSyncIds, CollectionRequest, StoreSyncAssociation};
use crate::types::{ConnectionType, ServerTimestamp};

verus! {

/// The capability to cancel the store's long operations. Each of them asks
/// it before it starts, and gives up if the answer is yes.
#[derive(Debug)]
pub struct SqlInterruptScope {
    pub interrupted: bool,
}

impl SqlInterruptScope {
    /// A scope that nobody has interrupted.
    pub fn new() -> (r: Self)
        ensures
            !r.interrupted,
    {
        SqlInterruptScope { interrupted: false }
    }

    /// Asks the operations under this scope to give up.
    pub fn interrupt(&mut self)
        ensures
            final(self).interrupted,
    {
        self.interrupted = true;
    }

    pub fn was_interrupted(&self) -> (r: bool)
        ensures
            r == self.interrupted,
    {
        self.interrupted
    }

    /// Fails if the scope was interrupted.
    pub fn err_if_interrupted(&self) -> (r: Result<(), ErrorKind>)
        ensures
            self.interrupted ==> r == Err::<(), ErrorKind>(ErrorKind::Interrupted),
            !self.interrupted ==> r is Ok,
    {
        if self.interrupted {
            Err(ErrorKind::Interrupted)
        } else {
            Ok(())
        }
    }
}

/// The bookmarks store: the tables, and the scope under which its
/// operations run.
#[derive(Debug)]
pub struct BookmarksStore {
    pub db: PlacesDb,
    pub interruptee: SqlInterruptScope,
}

impl BookmarksStore {
    /// A store over `db`, which has to be a connection opened for syncing.
    pub fn new(db: PlacesDb, interruptee: SqlInterruptScope) -> (r: Self)
        requires
            db.conn_type == ConnectionType::Sync,
        ensures
            r.db == db,
            r.interruptee == interruptee,
    {
        BookmarksStore { db, interruptee }
    }

    /// The name of the collection that this store syncs.
    pub fn collection_name(&self) -> (r: &'static str)
        ensures
            r@ == "bookmarks"@,
    {
        "bookmarks"
    }

    /// What to ask the server for: every record of the collection that
    /// changed after the last sync, or every record after a reset.
    pub fn get_collection_request(&self) -> (r: CollectionRequest)
        ensures
            r.collection@ == "bookmarks"@,
            r.full,
            r.newer_than == Some(
                ServerTimestamp(
                    match self.db@.meta.last_sync {
                        Some(t) => t,
                        None => 0,
                    },
                ),
            ),
    {
        let since: i64 = match self.db.meta.last_sync {
            Some(t) => t,
            None => 0,
        };
        CollectionRequest {
            collection: self.collection_name().to_owned(),
            full: true,
            newer_than: Some(ServerTimestamp(since)),
        }
    }

    /// The server state that the store is tied to: connected where both ids
    /// are stored, disconnected otherwise.
    pub fn get_sync_assoc(&self) -> (r: StoreSyncAssociation)
        ensures
            r.deep_view() == (match (
                self.db@.meta.global_sync_id,
                self.db@.meta.collection_sync_id,
            ) {
                (Some(global), Some(coll)) => Some((global, coll)),
                _ => None,
            }),
    {
        match (&self.db.meta.global_sync_id, &self.db.meta.collection_sync_id) {
            (Some(global), Some(coll)) => StoreSyncAssociation::Connected(
                CollSyncIds { global: global.clone(), coll: coll.clone() },
            ),
            _ => StoreSyncAssociation::Disconnected,
        }
    }
}

} // verus!
