use bookmark_sync::db::PlacesDb;
use bookmark_sync::merger::Merger;
use bookmark_sync::record::{
    BookmarkItemRecord, BookmarkRecord, CollSyncIds, FolderRecord, IncomingChange,
    IncomingChangeset, StoreSyncAssociation,
};
use bookmark_sync::rows::{
    LocalItem, MergedRow, Place, RemovalRow, StaleFrecency, Tombstone, UploadItem,
};
use bookmark_sync::soundness::local_tree_is_sound;
use bookmark_sync::store::{BookmarksStore, SqlInterruptScope};
use bookmark_sync::telemetry::Engine;
use bookmark_sync::types::{
    BookmarkType, ConnectionType, ServerTimestamp, SyncStatus, SyncedBookmarkKind, Timestamp,
};

const NOW: u64 = 1_600_000_000_000;

fn new_store() -> BookmarksStore {
    BookmarksStore::new(PlacesDb::new(ConnectionType::Sync), SqlInterruptScope::new())
}

fn bookmark(id: &str, parent: &str, title: &str, url: &str) -> BookmarkItemRecord {
    BookmarkItemRecord::Bookmark(BookmarkRecord {
        record_id: id.to_string(),
        parent_record_id: Some(parent.to_string()),
        parent_title: None,
        date_added: Some(0),
        has_dupe: false,
        title: Some(title.to_string()),
        url: Some(url.to_string()),
        keyword: None,
        tags: vec![],
    })
}

fn folder(id: &str, parent: &str, title: &str, children: &[&str]) -> BookmarkItemRecord {
    BookmarkItemRecord::Folder(FolderRecord {
        record_id: id.to_string(),
        parent_record_id: Some(parent.to_string()),
        parent_title: None,
        date_added: Some(0),
        has_dupe: false,
        title: Some(title.to_string()),
        children: children.iter().map(|c| c.to_string()).collect(),
    })
}

fn changeset(time: i64, records: Vec<BookmarkItemRecord>) -> IncomingChangeset {
    let mut incoming = IncomingChangeset::new("bookmarks".to_string(), ServerTimestamp(time));
    for record in records {
        incoming.changes.push(IncomingChange { record, server_modified: ServerTimestamp(time) });
    }
    incoming
}

fn server_state() -> Vec<BookmarkItemRecord> {
    vec![
        folder("menu", "places", "menu", &["folderAAAAAA", "bookmarkBBBB"]),
        folder("folderAAAAAA", "menu", "A", &["bookmarkCCCC"]),
        bookmark("bookmarkBBBB", "menu", "B", "http://example.com/b"),
        bookmark("bookmarkCCCC", "folderAAAAAA", "C", "http://example.com/c"),
    ]
}

fn local_item(id: i64, guid: &str, parent: i64, status: SyncStatus, counter: u32) -> LocalItem {
    LocalItem {
        id,
        guid: guid.to_string(),
        parent: Some(parent),
        position: 0,
        typ: BookmarkType::Bookmark,
        title: None,
        place_id: None,
        date_added: 0,
        last_modified: 0,
        sync_change_counter: counter,
        sync_status: status,
    }
}

fn local_shape(db: &PlacesDb) -> Vec<(String, Option<String>, i64, Option<String>)> {
    let mut shape: Vec<(String, Option<String>, i64, Option<String>)> = db
        .bookmarks
        .iter()
        .map(|b| {
            let parent = b.parent.and_then(|id| db.bookmarks.iter().find(|p| p.id == id));
            (b.guid.clone(), parent.map(|p| p.guid.clone()), b.position, b.title.clone())
        })
        .collect();
    shape.sort();
    shape
}

#[test]
fn every_row_of_the_mirror_ends_up_below_the_root() {
    let mut store = new_store();
    // C names a parent that the server never sent, and no folder lists it.
    let mut records = server_state();
    records.push(bookmark("bookmarkDDDD", "folderZZZZZZ", "D", "http://example.com/d"));
    store
        .stage_incoming(&changeset(0, records), &mut bookmark_sync::telemetry::EngineIncoming::new())
        .expect("should stage");
    let merger = Merger::new(ServerTimestamp(0), Timestamp(NOW));
    let tree = merger.fetch_remote_tree(&store).expect("should build");
    for row in store.db.synced.iter().filter(|v| !v.is_deleted) {
        let node = tree.node_for_guid(&row.guid.as_str().into()).expect("every live row is a node");
        assert!(node.level() >= 0, "{} hangs nowhere", row.guid);
    }
    let orphan = tree.node_for_guid(&"bookmarkDDDD".into()).unwrap();
    assert_eq!(orphan.level(), 2);
    assert_eq!(orphan.parent().unwrap().guid.as_str(), "unfiled_____");
}

#[test]
fn after_a_merge_the_local_tree_is_sound() {
    let mut store = new_store();
    store
        .apply_incoming(&changeset(0, server_state()), &mut Engine::new("bookmarks"), Timestamp(NOW))
        .expect("should apply");
    assert!(local_tree_is_sound(&store.db.bookmarks));
    assert_eq!(store.db.bookmarks.len(), 5 + 3);
    assert_eq!(
        local_shape(&store.db)
            .into_iter()
            .filter(|(guid, _, _, _)| !guid.ends_with('_'))
            .collect::<Vec<_>>(),
        vec![
            ("bookmarkBBBB".to_string(), Some("menu________".to_string()), 1, Some("B".to_string())),
            ("bookmarkCCCC".to_string(), Some("folderAAAAAA".to_string()), 0, Some("C".to_string())),
            ("folderAAAAAA".to_string(), Some("menu________".to_string()), 0, Some("A".to_string())),
        ]
    );
    // A tree with an item that hangs nowhere, or with a guid twice, is not.
    let mut hanging = store.db.duplicate();
    hanging.bookmarks.push(local_item(99, "bookmarkZZZZ", 1234, SyncStatus::New, 1));
    assert!(!local_tree_is_sound(&hanging.bookmarks));
    let mut twice = store.db.duplicate();
    twice.bookmarks.push(local_item(99, "bookmarkBBBB", 2, SyncStatus::New, 1));
    assert!(!local_tree_is_sound(&twice.bookmarks));
}

#[test]
fn sync_finished_settles_what_went_up() {
    let mut store = new_store();
    store.db.bookmarks.push(local_item(10, "bookmarkAAAA", 2, SyncStatus::New, 2));
    store.db.bookmarks.push(local_item(11, "bookmarkBBBB", 2, SyncStatus::New, 5));
    store.db.bookmarks.push(local_item(12, "bookmarkCCCC", 2, SyncStatus::New, 1));
    store.db.deleted.push(Tombstone { guid: "bookmarkDDDD".to_string(), date_removed: 0 });
    store.db.deleted.push(Tombstone { guid: "bookmarkEEEE".to_string(), date_removed: 0 });
    let staged = |id: Option<i64>, guid: &str, counter: u32, deleted: bool| UploadItem {
        id,
        guid: guid.to_string(),
        sync_change_counter: counter,
        parent_guid: Some("menu________".to_string()),
        parent_title: None,
        date_added: Some(3),
        title: Some("T".to_string()),
        place_id: None,
        kind: if deleted { None } else { Some(SyncedBookmarkKind::Bookmark) },
        url: None,
        keyword: None,
        position: Some(0),
        is_deleted: deleted,
        uploaded_at: None,
    };
    store.db.items_to_upload = vec![
        staged(Some(10), "bookmarkAAAA", 2, false),
        // B changed again after it was staged: 5 changes, 3 of them staged.
        staged(Some(11), "bookmarkBBBB", 3, false),
        staged(Some(12), "bookmarkCCCC", 1, false),
        staged(None, "bookmarkDDDD", 1, true),
        staged(None, "bookmarkEEEE", 1, true),
    ];
    store
        .sync_finished(
            ServerTimestamp(4_000),
            &vec!["bookmarkAAAA".to_string(), "bookmarkBBBB".to_string(), "bookmarkDDDD".to_string()],
            |_| 0,
        )
        .expect("should finish");

    let item = |guid: &str| store.db.bookmarks.iter().find(|b| b.guid == guid).unwrap();
    assert_eq!(item("bookmarkAAAA").sync_change_counter, 0);
    assert_eq!(item("bookmarkAAAA").sync_status, SyncStatus::Normal);
    assert_eq!(item("bookmarkBBBB").sync_change_counter, 2);
    assert_eq!(item("bookmarkBBBB").sync_status, SyncStatus::Normal);
    // C did not go up.
    assert_eq!(item("bookmarkCCCC").sync_change_counter, 1);
    assert_eq!(item("bookmarkCCCC").sync_status, SyncStatus::New);
    assert_eq!(store.db.meta.last_sync, Some(4_000));
    assert!(store.db.items_to_upload.is_empty());
    // The tombstone that went up is gone, the other stays.
    let tombstones: Vec<&str> = store.db.deleted.iter().map(|d| d.guid.as_str()).collect();
    assert_eq!(tombstones, vec!["bookmarkEEEE"]);
    // What went up is in the mirror.
    let a = store.db.synced.iter().find(|v| v.guid == "bookmarkAAAA").expect("mirrored");
    assert_eq!(a.server_modified, 4_000);
    assert!(!a.needs_merge && !a.is_deleted);
    assert_eq!(a.title.as_deref(), Some("T"));
    let d = store.db.synced.iter().find(|v| v.guid == "bookmarkDDDD").expect("mirrored");
    assert!(d.is_deleted && !d.needs_merge);
    assert!(store.db.synced.iter().all(|v| v.guid != "bookmarkCCCC"));
}

#[test]
fn wipe_leaves_the_roots_and_tombstones() {
    let mut store = new_store();
    store.db.bookmarks.push(local_item(10, "bookmarkAAAA", 2, SyncStatus::Normal, 0));
    store.db.bookmarks.push(local_item(11, "bookmarkBBBB", 2, SyncStatus::New, 1));
    store.db.bookmarks.push(local_item(12, "bookmarkCCCC", 3, SyncStatus::Normal, 4));
    store.db.deleted.push(Tombstone { guid: "bookmarkCCCC".to_string(), date_removed: 7 });
    store.db.meta.last_sync = Some(55);
    let mirror = store.db.synced.len();
    store.wipe(Timestamp(9_000));

    let left: Vec<(&str, u32)> =
        store.db.bookmarks.iter().map(|b| (b.guid.as_str(), b.sync_change_counter)).collect();
    assert_eq!(
        left,
        vec![("root________", 1), ("menu________", 2), ("toolbar_____", 2), ("unfiled_____", 2), ("mobile______", 2)]
    );
    // A tombstone for every item that the server had; B was new to it.
    let tombstones: Vec<(&str, i64)> =
        store.db.deleted.iter().map(|d| (d.guid.as_str(), d.date_removed)).collect();
    assert_eq!(tombstones, vec![("bookmarkCCCC", 7), ("bookmarkAAAA", 9_000)]);
    assert_eq!(store.db.meta.last_sync, Some(55));
    assert_eq!(store.db.synced.len(), mirror);
}

#[test]
fn reset_forgets_the_server() {
    let mut store = new_store();
    store
        .apply_incoming(&changeset(500, server_state()), &mut Engine::new("bookmarks"), Timestamp(NOW))
        .expect("should apply");
    store.db.deleted.push(Tombstone { guid: "bookmarkZZZZ".to_string(), date_removed: 0 });
    let before = local_shape(&store.db);

    store.reset(&StoreSyncAssociation::Connected(CollSyncIds {
        global: "globalAAAAAA".to_string(),
        coll: "collAAAAAAAA".to_string(),
    }));
    assert_eq!(local_shape(&store.db), before);
    assert!(store
        .db
        .bookmarks
        .iter()
        .all(|b| b.sync_change_counter == 1 && b.sync_status == SyncStatus::New));
    let mirror: Vec<&str> = store.db.synced.iter().map(|v| v.guid.as_str()).collect();
    assert_eq!(mirror, vec!["root________", "menu________", "toolbar_____", "unfiled_____", "mobile______"]);
    assert_eq!(store.db.synced_structure.len(), 5);
    assert!(store.db.synced_tags.is_empty());
    assert!(store.db.deleted.is_empty());
    assert_eq!(store.db.meta.last_sync, Some(0));
    match store.get_sync_assoc() {
        StoreSyncAssociation::Connected(ids) => {
            assert_eq!(ids.global, "globalAAAAAA");
            assert_eq!(ids.coll, "collAAAAAAAA");
        }
        StoreSyncAssociation::Disconnected => panic!("should be connected"),
    }

    store.reset(&StoreSyncAssociation::Disconnected);
    assert!(matches!(store.get_sync_assoc(), StoreSyncAssociation::Disconnected));
    assert_eq!(store.db.meta.global_sync_id, None);
}

#[test]
fn the_stale_queue_is_empty_after_the_frecencies_were_updated() {
    let mut store = new_store();
    store.db.places.push(Place { id: 1, url: "http://example.com/a".to_string(), frecency: -1 });
    store.db.places.push(Place { id: 2, url: "http://example.com/b".to_string(), frecency: 17 });
    store.db.stale_frecencies.push(StaleFrecency { place_id: 1, stale_at: 5 });
    store.update_frecencies(|id| 100 + id as i32).expect("should update");
    assert_eq!(store.db.frecency_stale_at(&"http://example.com/a".to_string()), None);
    assert_eq!(store.db.places[0].frecency, 101);
    assert_eq!(store.db.places[1].frecency, 17);
}

#[test]
fn records_that_match_the_mirror_leave_nothing_to_upload() {
    let mut store = new_store();
    // The synthetic root never goes up, so its change is never settled.
    store.db.bookmarks[0].sync_change_counter = 0;
    let outgoing = store
        .apply_incoming(&changeset(1_000, server_state()), &mut Engine::new("bookmarks"), Timestamp(NOW))
        .expect("should apply");
    let ids: Vec<String> = outgoing.changes.iter().map(|r| r.id().clone()).collect();
    store.sync_finished(ServerTimestamp(1_000), &ids, |_| 0).expect("should finish");
    let before = local_shape(&store.db);

    // The same records come again.
    let outgoing = store
        .apply_incoming(&changeset(2_000, server_state()), &mut Engine::new("bookmarks"), Timestamp(NOW))
        .expect("should apply");
    assert_eq!(outgoing.changes.len(), 0);
    assert_eq!(local_shape(&store.db), before);

    // And with nothing to merge, nothing happens at all.
    store.sync_finished(ServerTimestamp(2_000), &vec![], |_| 0).expect("should finish");
    assert!(!store.has_changes());
    let outgoing = store
        .apply_incoming(&changeset(3_000, vec![]), &mut Engine::new("bookmarks"), Timestamp(NOW))
        .expect("should apply");
    assert_eq!(outgoing.changes.len(), 0);
    assert_eq!(store.db.meta.last_sync, Some(3_000));
}

#[test]
fn after_a_reset_the_same_server_state_gives_the_same_result() {
    let mut store = new_store();
    store.db.places.push(Place { id: 1, url: "http://example.com/l".to_string(), frecency: 0 });
    let mut local = local_item(10, "bookmarkLLLL", 4, SyncStatus::New, 1);
    local.place_id = Some(1);
    store.db.bookmarks.push(local);
    let sync = |store: &mut BookmarksStore| {
        let outgoing = store
            .apply_incoming(&changeset(1_000, server_state()), &mut Engine::new("bookmarks"), Timestamp(NOW))
            .expect("should apply");
        let mut ids: Vec<String> = outgoing.changes.iter().map(|r| r.id().clone()).collect();
        store.sync_finished(ServerTimestamp(1_000), &ids, |_| 0).expect("should finish");
        ids.sort();
        (ids, local_shape(&store.db))
    };
    store.reset(&StoreSyncAssociation::Disconnected);
    let first = sync(&mut store);
    store.reset(&StoreSyncAssociation::Disconnected);
    let second = sync(&mut store);
    assert_eq!(first, second);
    assert!(first.0.contains(&"bookmarkLLLL".to_string()));
}

#[test]
fn the_keys_stay_unique() {
    let mut store = new_store();
    assert!(store.db.has_unique_keys());
    store.db.places.push(Place { id: 1, url: "http://example.com/l".to_string(), frecency: 0 });
    let mut local = local_item(10, "bookmarkLLLL", 4, SyncStatus::New, 1);
    local.place_id = Some(1);
    store.db.bookmarks.push(local);
    let outgoing = store
        .apply_incoming(&changeset(1_000, server_state()), &mut Engine::new("bookmarks"), Timestamp(NOW))
        .expect("should apply");
    assert!(store.db.has_unique_keys());
    let ids: Vec<String> = outgoing.changes.iter().map(|r| r.id().clone()).collect();
    store.sync_finished(ServerTimestamp(1_000), &ids, |_| 7).expect("should finish");
    assert!(store.db.has_unique_keys());
    store.wipe(Timestamp(NOW));
    assert!(store.db.has_unique_keys());
    store.reset(&StoreSyncAssociation::Disconnected);
    assert!(store.db.has_unique_keys());

    // A second place for a URL, a second row for a guid or a second item
    // under a key breaks it.
    let mut twice = store.db.duplicate();
    twice.places.push(Place { id: 99, url: "http://example.com/l".to_string(), frecency: 0 });
    assert!(!twice.has_unique_keys());
    let mut twice = store.db.duplicate();
    let row = twice.synced[0].duplicate();
    twice.synced.push(row);
    assert!(!twice.has_unique_keys());
    let mut twice = store.db.duplicate();
    twice.bookmarks.push(local_item(1, "bookmarkZZZZ", 2, SyncStatus::New, 1));
    assert!(!twice.has_unique_keys());
    let mut twice = store.db.duplicate();
    twice.deleted.push(Tombstone { guid: "bookmarkAAAA".to_string(), date_removed: 0 });
    twice.deleted.push(Tombstone { guid: "bookmarkAAAA".to_string(), date_removed: 1 });
    assert!(!twice.has_unique_keys());
    let mut twice = store.db.duplicate();
    twice.stale_frecencies.push(StaleFrecency { place_id: 1, stale_at: 0 });
    twice.stale_frecencies.push(StaleFrecency { place_id: 1, stale_at: 1 });
    assert!(!twice.has_unique_keys());
}

fn merged(local: &str, merged: &str, parent: &str, position: i64) -> MergedRow {
    MergedRow {
        local_guid: Some(local.to_string()),
        remote_guid: None,
        merged_guid: merged.to_string(),
        merged_parent_guid: parent.to_string(),
        level: 2,
        position,
        use_remote: false,
        should_upload: false,
    }
}

#[test]
fn a_merge_that_keeps_every_item_sends_nothing() {
    let mut store = new_store();
    store.db.bookmarks.push(local_item(10, "bookmarkAAAA", 2, SyncStatus::Normal, 0));
    store.db.bookmarks.push(local_item(11, "bookmarkBBBB", 2, SyncStatus::Normal, 0));
    store.db.bookmarks[6].position = 1;
    for b in store.db.bookmarks.iter_mut() {
        b.sync_change_counter = 0;
    }
    let rows = vec![
        merged("menu________", "menu________", "root________", 0),
        merged("bookmarkAAAA", "bookmarkAAAA", "menu________", 0),
        merged("bookmarkBBBB", "bookmarkBBBB", "menu________", 1),
    ];
    let before = local_shape(&store.db);
    let merger = Merger::new(ServerTimestamp(0), Timestamp(NOW));
    assert_eq!(merger.apply(&mut store, &rows, &vec![]), Ok(()));
    assert_eq!(local_shape(&store.db), before);
    assert!(store.db.items_to_upload.is_empty());
    let out = store.fetch_outgoing_records(ServerTimestamp(0)).expect("should read");
    assert!(out.changes.is_empty());
    assert!(store.db.bookmarks.iter().all(|b| b.sync_change_counter == 0));
}

#[test]
fn an_item_that_gets_another_guid_is_renamed_and_not_copied() {
    let mut store = new_store();
    store.db.bookmarks.push(LocalItem {
        typ: BookmarkType::Folder,
        ..local_item(10, "folderAAAAAA", 2, SyncStatus::New, 1)
    });
    store.db.bookmarks.push(local_item(11, "bookmarkBBBB", 10, SyncStatus::New, 1));
    let count = store.db.bookmarks.len();
    let rows = vec![merged("folderAAAAAA", "folderRRRRRR", "menu________", 0)];
    let merger = Merger::new(ServerTimestamp(0), Timestamp(NOW));
    assert_eq!(merger.apply(&mut store, &rows, &vec![]), Ok(()));
    assert_eq!(store.db.bookmarks.len(), count);
    assert!(store.db.bookmarks.iter().all(|b| b.guid != "folderAAAAAA"));
    let renamed = store.db.bookmarks.iter().find(|b| b.guid == "folderRRRRRR").expect("renamed");
    assert_eq!(renamed.id, 10);
    assert_eq!(renamed.parent, Some(2));
    // The child still hangs below it.
    let child = store.db.bookmarks.iter().find(|b| b.guid == "bookmarkBBBB").expect("kept");
    assert_eq!(child.parent, Some(10));
    assert!(local_tree_is_sound(&store.db.bookmarks));
}

#[test]
fn an_item_that_the_merge_deletes_is_gone() {
    let mut store = new_store();
    store.db.bookmarks.push(local_item(10, "bookmarkAAAA", 2, SyncStatus::Normal, 0));
    store.db.bookmarks.push(local_item(11, "bookmarkBBBB", 2, SyncStatus::Normal, 0));
    let deletions = vec![
        RemovalRow { guid: "bookmarkAAAA".to_string(), local_level: 2, should_upload_tombstone: false },
        // A root is never deleted.
        RemovalRow { guid: "menu________".to_string(), local_level: 1, should_upload_tombstone: false },
        RemovalRow { guid: "bookmarkZZZZ".to_string(), local_level: 2, should_upload_tombstone: true },
    ];
    let merger = Merger::new(ServerTimestamp(0), Timestamp(NOW));
    assert_eq!(merger.apply(&mut store, &vec![], &deletions), Ok(()));
    let guids: Vec<&str> = store.db.bookmarks.iter().map(|b| b.guid.as_str()).collect();
    assert!(!guids.contains(&"bookmarkAAAA"));
    assert!(guids.contains(&"bookmarkBBBB"));
    assert!(guids.contains(&"menu________"));
    assert_eq!(guids.len(), 6);
    let tombstones: Vec<&str> = store.db.deleted.iter().map(|d| d.guid.as_str()).collect();
    assert_eq!(tombstones, vec!["bookmarkZZZZ"]);
}

#[test]
fn a_merge_invents_no_guid() {
    let mut store = new_store();
    store.db.bookmarks.push(LocalItem {
        typ: BookmarkType::Folder,
        ..local_item(10, "folderLLLLLL", 2, SyncStatus::New, 1)
    });
    let before: Vec<String> = store.db.bookmarks.iter().map(|b| b.guid.clone()).collect();
    let sent = ["menu________", "folderAAAAAA", "bookmarkBBBB", "bookmarkCCCC"];
    store
        .apply_incoming(&changeset(0, server_state()), &mut Engine::new("bookmarks"), Timestamp(NOW))
        .expect("should apply");
    for b in store.db.bookmarks.iter() {
        assert!(
            before.contains(&b.guid) || sent.contains(&b.guid.as_str()),
            "{} came from nowhere",
            b.guid
        );
    }
    let after: Vec<&str> = store.db.bookmarks.iter().map(|b| b.guid.as_str()).collect();
    for guid in sent {
        assert!(after.contains(&guid), "{} is missing", guid);
    }
    assert!(after.contains(&"folderLLLLLL"));
    assert_eq!(after.len(), 9);
}
