use bookmark_sync::db::PlacesDb;
use bookmark_sync::error::{Corruption, ErrorKind};
use bookmark_sync::merger::Merger;
use bookmark_sync::record::{BookmarkItemRecord, BookmarkRecord, IncomingChange, IncomingChangeset};
use bookmark_sync::remote_tree::remote_edges;
use bookmark_sync::rows::{LocalItem, MergedRow, StructureRow, SyncedItem};
use bookmark_sync::soundness::local_tree_is_sound;
use bookmark_sync::store::{BookmarksStore, SqlInterruptScope};
use bookmark_sync::telemetry::{Engine, EngineIncoming};
use bookmark_sync::text_order::{comes_before, sort_text_keys, text_key_le, TextKey};
use bookmark_sync::types::{
    BookmarkType, ConnectionType, ServerTimestamp, SyncStatus, SyncedBookmarkKind,
    SyncedBookmarkValidity, Timestamp,
};

fn fresh_store() -> BookmarksStore {
    BookmarksStore::new(PlacesDb::new(ConnectionType::Sync), SqlInterruptScope::new())
}

fn orphan(id: &str, parent: &str) -> BookmarkItemRecord {
    BookmarkItemRecord::Bookmark(BookmarkRecord {
        record_id: id.to_string(),
        parent_record_id: Some(parent.to_string()),
        parent_title: None,
        date_added: Some(5),
        has_dupe: false,
        title: Some(id.to_string()),
        url: Some(format!("http://example.com/{}", id)),
        keyword: None,
        tags: vec![],
    })
}

fn mirror_row(guid: &str, deleted: bool) -> SyncedItem {
    SyncedItem {
        guid: guid.to_string(),
        parent_guid: Some("unfiled_____".to_string()),
        kind: SyncedBookmarkKind::Bookmark,
        title: None,
        place_id: None,
        keyword: None,
        date_added: 0,
        server_modified: 0,
        needs_merge: true,
        is_deleted: deleted,
        validity: SyncedBookmarkValidity::Valid,
    }
}

fn local(id: i64, guid: &str, parent: i64, typ: BookmarkType) -> LocalItem {
    LocalItem {
        id,
        guid: guid.to_string(),
        parent: Some(parent),
        position: 0,
        typ,
        title: None,
        place_id: None,
        date_added: 0,
        last_modified: 0,
        sync_change_counter: 0,
        sync_status: SyncStatus::Normal,
    }
}

fn key(text: &str, number: i64, index: usize) -> TextKey {
    TextKey { text: text.to_string(), number, index }
}

#[test]
fn texts_come_in_the_order_of_their_characters() {
    assert!(comes_before("a", "b"));
    assert!(!comes_before("b", "a"));
    assert!(comes_before("", "a"));
    assert!(!comes_before("a", ""));
    assert!(!comes_before("", ""));
    assert!(comes_before("ab", "abc"));
    assert!(!comes_before("abc", "ab"));
    assert!(!comes_before("abc", "abc"));
    assert!(comes_before("Z", "a"));
    assert!(comes_before("menu________", "toolbar_____"));
    // The order is that of the texts' bytes.
    let texts = ["", "-", "0", "A", "Z", "_", "a", "ab", "abc", "b", "z", "\u{e9}", "\u{20ac}", "\u{1f600}"];
    for a in texts.iter() {
        for b in texts.iter() {
            assert_eq!(comes_before(a, b), a.as_bytes() < b.as_bytes(), "{:?} and {:?}", a, b);
        }
    }
}

#[test]
fn keys_sort_by_text_then_by_number_then_by_index() {
    let keys = vec![
        key("b", 0, 0),
        key("a", 2, 1),
        key("a", 1, 2),
        key("ab", -5, 3),
        key("a", 1, 4),
        key("", 9, 5),
    ];
    let sorted = sort_text_keys(&keys);
    let order: Vec<usize> = sorted.iter().map(|k| k.index).collect();
    assert_eq!(order, vec![5, 2, 4, 1, 3, 0]);
    assert_eq!(sorted[1].text, "a");
    assert_eq!(sorted[1].number, 1);
    assert!(text_key_le(&keys[2], &keys[4]));
    assert!(!text_key_le(&keys[4], &keys[2]));
    assert!(text_key_le(&keys[2], &keys[2]));
    assert!(sort_text_keys(&vec![]).is_empty());
}

#[test]
fn the_rows_of_the_mirror_come_in_the_order_of_their_guids() {
    let mut store = fresh_store();
    store.db.synced.push(mirror_row("bookmarkCCCC", false));
    store.db.synced.push(mirror_row("bookmarkAAAA", false));
    store.db.synced.push(mirror_row("bookmarkDDDD", true));
    store.db.synced.push(mirror_row("bookmarkBBBB", false));
    let merger = Merger::new(ServerTimestamp(0), Timestamp(0));
    let rows = merger.remote_tree_rows(&store.db.synced);
    let guids: Vec<&str> = rows.iter().map(|r| r.item.guid.as_str()).collect();
    assert_eq!(
        guids,
        vec![
            "bookmarkAAAA",
            "bookmarkBBBB",
            "bookmarkCCCC",
            "menu________",
            "mobile______",
            "toolbar_____",
            "unfiled_____",
        ]
    );
    assert_eq!(rows[0].parent_guid.as_deref(), Some("unfiled_____"));
}

#[test]
fn listed_children_come_folder_by_folder_and_by_position() {
    let row = |guid: &str, parent: &str, position: i64| StructureRow {
        guid: guid.to_string(),
        parent_guid: parent.to_string(),
        position,
    };
    let structure = vec![
        row("bookmarkCCCC", "unfiled_____", 1),
        row("bookmarkAAAA", "unfiled_____", 0),
        row("bookmarkEEEE", "menu________", 1),
        row("root________", "root________", 0),
        row("bookmarkDDDD", "menu________", 0),
        row("bookmarkFFFF", "menu________", 1),
    ];
    let edges = remote_edges(&structure);
    let listed: Vec<(&str, &str)> =
        edges.iter().map(|e| (e.parent_guid.as_str(), e.child_guid.as_str())).collect();
    assert_eq!(
        listed,
        vec![
            ("menu________", "bookmarkDDDD"),
            ("menu________", "bookmarkEEEE"),
            ("menu________", "bookmarkFFFF"),
            ("unfiled_____", "bookmarkAAAA"),
            ("unfiled_____", "bookmarkCCCC"),
        ]
    );
}

#[test]
fn orphans_come_after_the_listed_children_in_the_order_of_their_guids() {
    let mut store = fresh_store();
    let mut incoming = IncomingChangeset::new("bookmarks".to_string(), ServerTimestamp(0));
    for id in ["bookmarkCCCC", "bookmarkAAAA", "bookmarkBBBB"] {
        incoming.changes.push(IncomingChange {
            record: orphan(id, "unfiled"),
            server_modified: ServerTimestamp(0),
        });
    }
    store.stage_incoming(&incoming, &mut EngineIncoming::new()).expect("should stage");
    let merger = Merger::new(ServerTimestamp(0), Timestamp(0));
    let tree = merger.fetch_remote_tree(&store).expect("should build");
    let unfiled = tree.node_for_guid(&"unfiled_____".into()).expect("should exist");
    let children: Vec<String> = unfiled.children().map(|n| n.guid.as_str().to_string()).collect();
    assert_eq!(children, vec!["bookmarkAAAA", "bookmarkBBBB", "bookmarkCCCC"]);
    for id in ["bookmarkAAAA", "bookmarkBBBB", "bookmarkCCCC"] {
        assert_eq!(tree.node_for_guid(&id.into()).expect("should exist").level(), 2);
    }
}

#[test]
fn a_parent_that_is_no_folder_makes_the_local_tree_unsound() {
    let mut db = PlacesDb::new(ConnectionType::Sync);
    assert!(local_tree_is_sound(&db.bookmarks));
    db.bookmarks.push(local(10, "bookmarkAAAA", 2, BookmarkType::Bookmark));
    assert!(local_tree_is_sound(&db.bookmarks));
    db.bookmarks.push(local(11, "bookmarkBBBB", 10, BookmarkType::Bookmark));
    assert!(!local_tree_is_sound(&db.bookmarks));
    db.bookmarks[5].typ = BookmarkType::Folder;
    assert!(local_tree_is_sound(&db.bookmarks));
}

#[test]
fn a_tree_that_was_unsound_is_merged_all_the_same() {
    let mut store = fresh_store();
    // An item that hangs nowhere is no part of the tree.
    store.db.bookmarks.push(local(10, "bookmarkAAAA", 999, BookmarkType::Bookmark));
    store.db.bookmarks.push(local(11, "bookmarkBBBB", 2, BookmarkType::Bookmark));
    assert!(!local_tree_is_sound(&store.db.bookmarks));
    let merger = Merger::new(ServerTimestamp(0), Timestamp(7));
    let rows = vec![MergedRow {
        local_guid: Some("bookmarkBBBB".to_string()),
        remote_guid: None,
        merged_guid: "bookmarkBBBB".to_string(),
        merged_parent_guid: "toolbar_____".to_string(),
        level: 2,
        position: 0,
        use_remote: false,
        should_upload: true,
    }];
    assert_eq!(merger.apply(&mut store, &rows, &vec![]), Ok(()));
    let moved = store.db.bookmarks.iter().find(|b| b.guid == "bookmarkBBBB").expect("kept");
    assert_eq!(moved.parent, Some(3));
    let hanging = store.db.bookmarks.iter().find(|b| b.guid == "bookmarkAAAA").expect("kept");
    assert_eq!(hanging.parent, Some(999));
}

#[test]
fn a_missing_root_is_the_only_reason_for_its_error() {
    let merger = Merger::new(ServerTimestamp(0), Timestamp(0));
    let store = fresh_store();
    assert!(merger.fetch_local_tree(&store).is_ok());
    assert!(merger.fetch_remote_tree(&store).is_ok());

    // A tombstone for the root is no live row.
    let mut store = fresh_store();
    store.db.synced[0].is_deleted = true;
    assert_eq!(
        merger.fetch_remote_tree(&store).err(),
        Some(ErrorKind::Corruption(Corruption::InvalidSyncedRoots))
    );
    assert!(merger.fetch_local_tree(&store).is_ok());

    let mut store = fresh_store();
    store.db.bookmarks.remove(0);
    assert_eq!(
        merger.fetch_local_tree(&store).err(),
        Some(ErrorKind::Corruption(Corruption::InvalidLocalRoots))
    );
    assert!(merger.fetch_remote_tree(&store).is_ok());
}

#[test]
fn an_interrupted_sync_leaves_the_report_as_it_was() {
    let mut store = fresh_store();
    store.interruptee.interrupt();
    let mut incoming = IncomingChangeset::new("bookmarks".to_string(), ServerTimestamp(3));
    incoming.changes.push(IncomingChange {
        record: orphan("bookmarkAAAA", "unfiled"),
        server_modified: ServerTimestamp(3),
    });
    let mut telem = Engine::new("bookmarks");
    assert_eq!(
        store.apply_incoming(&incoming, &mut telem, Timestamp(9)).err(),
        Some(ErrorKind::Interrupted)
    );
    assert_eq!(telem.name, "bookmarks");
    assert_eq!(telem.incoming, None);
    assert!(telem.validation.is_none());
    assert_eq!(store.db.meta.last_sync, None);
    assert_eq!(store.db.synced.len(), 5);
}

#[test]
fn a_sync_with_nothing_to_merge_succeeds_and_reports_no_validation() {
    let mut store = fresh_store();
    for b in store.db.bookmarks.iter_mut() {
        b.sync_change_counter = 0;
    }
    for v in store.db.synced.iter_mut() {
        v.needs_merge = false;
    }
    assert!(!store.has_changes());
    let before: Vec<String> = store.db.bookmarks.iter().map(|b| b.guid.clone()).collect();
    let incoming = IncomingChangeset::new("bookmarks".to_string(), ServerTimestamp(42));
    let mut telem = Engine::new("bookmarks");
    let out = store.apply_incoming(&incoming, &mut telem, Timestamp(9)).expect("should apply");
    assert!(out.changes.is_empty());
    assert_eq!(out.timestamp, ServerTimestamp(42));
    assert_eq!(out.collection, "bookmarks");
    assert_eq!(telem.name, "bookmarks");
    assert_eq!(telem.incoming, Some(EngineIncoming { applied: 0, failed: 0 }));
    assert!(telem.validation.is_none());
    assert_eq!(store.db.meta.last_sync, Some(42));
    let after: Vec<String> = store.db.bookmarks.iter().map(|b| b.guid.clone()).collect();
    assert_eq!(after, before);
}

#[test]
fn a_sync_reports_how_many_items_have_each_problem() {
    let mut store = fresh_store();
    let mut incoming = IncomingChangeset::new("bookmarks".to_string(), ServerTimestamp(0));
    for id in ["bookmarkAAAA", "bookmarkBBBB"] {
        incoming.changes.push(IncomingChange {
            record: orphan(id, "folderZZZZZZ"),
            server_modified: ServerTimestamp(0),
        });
    }
    let mut telem = Engine::new("bookmarks");
    store.apply_incoming(&incoming, &mut telem, Timestamp(1_000)).expect("should apply");
    let validation = telem.validation.expect("should report");
    let found: Vec<(&str, usize)> =
        validation.problems.iter().map(|p| (p.name.as_str(), p.count)).collect();
    // Each names a parent that the mirror lacks, and no folder lists it.
    assert_eq!(found, vec![("missingParents", 2), ("parentChildDisagreements", 2)]);
    assert_eq!(telem.name, "bookmarks");
}
