use bookmark_sync::db::PlacesDb;
use bookmark_sync::error::{Corruption, ErrorKind, MergeError};
use bookmark_sync::fragments::{
    item_kind_fragment, signed_to_string, unsigned_to_string, LocalItemsFragment, RootsFragment,
    UrlOrPlaceIdFragment,
};
use bookmark_sync::frecency::stale_chunk;
use bookmark_sync::guid::{has_query_scheme, BookmarkRecordId, BookmarkRootGuid};
use bookmark_sync::incoming::apply_payload;
use bookmark_sync::merge_driver::merged_row;
use bookmark_sync::merger::{age_millis, record_telemetry_event, ItemContent, Merger};
use bookmark_sync::order::{sort_keys, SortKey};
use bookmark_sync::record::{
    BookmarkItemRecord, BookmarkRecord, FolderRecord, IncomingChange, IncomingChangeset,
    LivemarkRecord, SeparatorRecord,
};
use bookmark_sync::reupload::ConsecutiveReupload;
use bookmark_sync::rows::{
    LocalItem, MergedRow, Place, RemovalRow, StaleFrecency, SyncedItem, UploadItem,
    UploadStructure, UploadTag,
};
use bookmark_sync::store::{BookmarksStore, SqlInterruptScope};
use bookmark_sync::telemetry::{Engine, EngineIncoming};
use bookmark_sync::tree::DescendantParts;
use bookmark_sync::types::{
    BookmarkType, ConnectionType, ServerTimestamp, SyncStatus, SyncedBookmarkKind,
    SyncedBookmarkValidity, Timestamp,
};

fn new_store() -> BookmarksStore {
    BookmarksStore::new(PlacesDb::new(ConnectionType::Sync), SqlInterruptScope::new())
}

fn bookmark_record(id: &str, parent: &str, title: &str, url: &str) -> BookmarkItemRecord {
    BookmarkItemRecord::Bookmark(BookmarkRecord {
        record_id: id.to_string(),
        parent_record_id: Some(parent.to_string()),
        parent_title: None,
        date_added: Some(5),
        has_dupe: false,
        title: Some(title.to_string()),
        url: Some(url.to_string()),
        keyword: None,
        tags: vec![],
    })
}

fn folder_record(id: &str, parent: &str, children: &[&str]) -> BookmarkItemRecord {
    BookmarkItemRecord::Folder(FolderRecord {
        record_id: id.to_string(),
        parent_record_id: Some(parent.to_string()),
        parent_title: None,
        date_added: None,
        has_dupe: false,
        title: Some("folder".to_string()),
        children: children.iter().map(|c| c.to_string()).collect(),
    })
}

fn upload(guid: &str, id: i64, kind: SyncedBookmarkKind) -> UploadItem {
    UploadItem {
        id: Some(id),
        guid: guid.to_string(),
        sync_change_counter: 1,
        parent_guid: Some("menu________".to_string()),
        parent_title: None,
        date_added: Some(7),
        title: None,
        place_id: None,
        kind: Some(kind),
        url: None,
        keyword: None,
        position: Some(3),
        is_deleted: false,
        uploaded_at: None,
    }
}

#[test]
fn kinds_are_stored_under_their_numbers() {
    assert_eq!(SyncedBookmarkKind::from_u8(1), Some(SyncedBookmarkKind::Bookmark));
    assert_eq!(SyncedBookmarkKind::from_u8(2), Some(SyncedBookmarkKind::Query));
    assert_eq!(SyncedBookmarkKind::from_u8(3), Some(SyncedBookmarkKind::Folder));
    assert_eq!(SyncedBookmarkKind::from_u8(4), Some(SyncedBookmarkKind::Livemark));
    assert_eq!(SyncedBookmarkKind::from_u8(5), Some(SyncedBookmarkKind::Separator));
    assert_eq!(SyncedBookmarkKind::from_u8(0), None);
    assert_eq!(SyncedBookmarkKind::from_u8(6), None);
    assert_eq!(SyncedBookmarkKind::Separator.as_u8(), 5);
    assert_eq!(BookmarkType::from_u8(2), Some(BookmarkType::Folder));
    assert_eq!(BookmarkType::from_u8(4), None);
    assert_eq!(BookmarkType::Separator.as_u8(), 3);
    assert_eq!(SyncStatus::from_u8(2), SyncStatus::Normal);
    assert_eq!(SyncStatus::from_u8(9), SyncStatus::Unknown);
    assert_eq!(SyncStatus::New.as_u8(), 1);
    assert_eq!(SyncedBookmarkValidity::from_u8(3), Some(SyncedBookmarkValidity::Replace));
    assert_eq!(SyncedBookmarkValidity::from_u8(0), None);
    assert_eq!(SyncedBookmarkValidity::Reupload.as_u8(), 2);
}

#[test]
fn a_bookmark_with_a_place_url_is_a_query() {
    assert_eq!(SyncedBookmarkKind::from_local(BookmarkType::Bookmark, true), SyncedBookmarkKind::Query);
    assert_eq!(SyncedBookmarkKind::from_local(BookmarkType::Bookmark, false), SyncedBookmarkKind::Bookmark);
    assert_eq!(SyncedBookmarkKind::from_local(BookmarkType::Folder, true), SyncedBookmarkKind::Folder);
    assert_eq!(SyncedBookmarkKind::from_local(BookmarkType::Separator, false), SyncedBookmarkKind::Separator);
    assert_eq!(SyncedBookmarkKind::Query.to_local_type(), Some(BookmarkType::Bookmark));
    assert_eq!(SyncedBookmarkKind::Livemark.to_local_type(), None);
    assert!(has_query_scheme("place:tag=foo"));
    assert!(!has_query_scheme("place"));
    assert!(!has_query_scheme("http://place:1/"));
    assert!(!has_query_scheme(""));
}

#[test]
fn roots_travel_under_short_names() {
    assert_eq!(BookmarkRecordId::from_payload_id("places"), "root________");
    assert_eq!(BookmarkRecordId::from_payload_id("root"), "root________");
    assert_eq!(BookmarkRecordId::from_payload_id("menu"), "menu________");
    assert_eq!(BookmarkRecordId::from_payload_id("toolbar"), "toolbar_____");
    assert_eq!(BookmarkRecordId::from_payload_id("unfiled"), "unfiled_____");
    assert_eq!(BookmarkRecordId::from_payload_id("mobile"), "mobile______");
    assert_eq!(BookmarkRecordId::from_payload_id("bookmarkAAAA"), "bookmarkAAAA");
    assert_eq!(BookmarkRecordId::into_payload_id("root________"), "places");
    assert_eq!(BookmarkRecordId::into_payload_id("menu________"), "menu");
    assert_eq!(BookmarkRecordId::into_payload_id("toolbar_____"), "toolbar");
    assert_eq!(BookmarkRecordId::into_payload_id("unfiled_____"), "unfiled");
    assert_eq!(BookmarkRecordId::into_payload_id("mobile______"), "mobile");
    assert_eq!(BookmarkRecordId::into_payload_id("bookmarkAAAA"), "bookmarkAAAA");
    assert_eq!(BookmarkRootGuid::from_guid("mobile______"), Some(BookmarkRootGuid::Mobile));
    assert_eq!(BookmarkRootGuid::from_guid("mobile"), None);
    assert_eq!(BookmarkRootGuid::Unfiled.as_position(), 2);
    assert_eq!(BookmarkRootGuid::Root.as_position(), -1);
}

#[test]
fn ages_never_go_negative() {
    assert_eq!(age_millis(1_000, 400), 600);
    assert_eq!(age_millis(400, 1_000), 0);
    assert_eq!(age_millis(5, 5), 0);
    assert_eq!(age_millis(i64::MAX, i64::MIN), i64::MAX);
    assert_eq!(Timestamp(1_234).as_millis_i64(), 1_234);
    assert_eq!(Timestamp(u64::MAX).as_millis_i64(), i64::MAX);
}

#[test]
fn keys_sort_by_their_numbers_and_then_by_index() {
    let key = |major, minor, rank, index| SortKey { major, minor, rank, index };
    let keys = vec![key(2, 0, 0, 0), key(1, 5, 1, 1), key(1, 5, 0, 2), key(1, 4, 9, 3), key(1, 5, 0, 4)];
    let sorted: Vec<usize> = sort_keys(&keys).iter().map(|k| k.index).collect();
    assert_eq!(sorted, vec![3, 2, 4, 1, 0]);
    assert_eq!(sort_keys(&vec![]).len(), 0);
}

#[test]
fn numbers_in_decimal() {
    assert_eq!(unsigned_to_string(0), "0");
    assert_eq!(unsigned_to_string(7), "7");
    assert_eq!(unsigned_to_string(1_381_542_355_843), "1381542355843");
    assert_eq!(unsigned_to_string(u64::MAX), "18446744073709551615");
    assert_eq!(signed_to_string(-1), "-1");
    assert_eq!(signed_to_string(42), "42");
    assert_eq!(signed_to_string(i64::MIN), "-9223372036854775808");
}

#[test]
fn fragments_spell_sql() {
    assert_eq!(UrlOrPlaceIdFragment::Url("h.url").to_sql(), "h.url");
    assert_eq!(
        UrlOrPlaceIdFragment::PlaceId("s.placeId").to_sql(),
        "(SELECT h.url FROM moz_places h WHERE h.id = s.placeId)"
    );
    assert_eq!(
        item_kind_fragment("s.type", UrlOrPlaceIdFragment::Url("h.url")).to_sql(),
        "(CASE s.type WHEN 1 THEN (CASE substr(h.url, 1, 6) WHEN 'place:' THEN 2 ELSE 1 END) WHEN 2 THEN 3 ELSE 5 END)"
    );
    assert_eq!(
        RootsFragment(&[BookmarkRootGuid::Root, BookmarkRootGuid::Menu]).to_sql(),
        "('root________','menu________')"
    );
    assert_eq!(RootsFragment(&[]).to_sql(), "()");
    let cte = LocalItemsFragment("localItems").to_sql();
    assert!(cte.starts_with("localItems(id, guid, parentId,"));
    assert!(cte.contains("WHERE b.guid = 'root________' UNION ALL"));
    assert!(cte.ends_with("JOIN localItems s ON s.id = b.parent)"));
}

#[test]
fn a_consecutive_reupload_in_words() {
    let report = ConsecutiveReupload {
        guid: "bookmarkAAAA".to_string(),
        started_at: Timestamp(1_000),
        stopped_at: Timestamp(2_500),
        count: 3,
    };
    assert_eq!(
        report.to_string(),
        "Item bookmarkAAAA was reuploaded for 3 syncs between 1000 and 2500"
    );
}

#[test]
fn errors_in_words() {
    assert_eq!(ErrorKind::Interrupted.message(), "The operation was interrupted");
    assert_eq!(
        ErrorKind::Corruption(Corruption::InvalidLocalRoots).message(),
        "The local roots are invalid"
    );
    assert_eq!(ErrorKind::Merge(MergeError::Cycle).message(), "The trees could not be merged");
    assert_eq!(ErrorKind::Storage.message(), "The store is full");
}

#[test]
fn a_new_store_holds_the_five_roots() {
    let store = new_store();
    let guids: Vec<&str> = store.db.bookmarks.iter().map(|b| b.guid.as_str()).collect();
    assert_eq!(guids, vec!["root________", "menu________", "toolbar_____", "unfiled_____", "mobile______"]);
    assert_eq!(store.db.bookmarks[0].parent, None);
    assert!(store.db.bookmarks[1..].iter().all(|b| b.parent == Some(1)));
    let synced: Vec<&str> = store.db.synced.iter().map(|v| v.guid.as_str()).collect();
    assert_eq!(synced, guids);
    assert!(store.db.synced.iter().all(|v| !v.needs_merge && v.kind == SyncedBookmarkKind::Folder));
    let listed: Vec<(&str, i64)> =
        store.db.synced_structure.iter().map(|s| (s.guid.as_str(), s.position)).collect();
    assert_eq!(
        listed,
        vec![("root________", -1), ("menu________", 0), ("toolbar_____", 1), ("unfiled_____", 2), ("mobile______", 3)]
    );
    assert_eq!(store.collection_name(), "bookmarks");
}

#[test]
fn the_collection_request_asks_for_what_is_newer_than_the_last_sync() {
    let mut store = new_store();
    let request = store.get_collection_request();
    assert_eq!(request.collection, "bookmarks");
    assert!(request.full);
    assert_eq!(request.newer_than, Some(ServerTimestamp(0)));
    store.db.meta.last_sync = Some(1_234);
    assert_eq!(store.get_collection_request().newer_than, Some(ServerTimestamp(1_234)));
}

#[test]
fn staging_a_bookmark_reads_its_url() {
    let mut db = PlacesDb::new(ConnectionType::Sync);
    apply_payload(
        &mut db,
        &bookmark_record("bookmarkAAAA", "unfiled", "A", "HTTP://Example.com"),
        ServerTimestamp(9),
    )
    .expect("should stage");
    let row = db.synced.iter().find(|v| v.guid == "bookmarkAAAA").expect("staged");
    assert_eq!(row.parent_guid.as_deref(), Some("unfiled_____"));
    assert_eq!(row.kind, SyncedBookmarkKind::Bookmark);
    assert_eq!(row.validity, SyncedBookmarkValidity::Valid);
    assert_eq!(row.server_modified, 9);
    assert_eq!(row.date_added, 5);
    assert!(row.needs_merge);
    assert!(!row.is_deleted);
    // The place holds the URL as it was read, not as the record spelled it.
    assert_eq!(db.places.len(), 1);
    assert_eq!(db.places[0].url, "http://example.com/");
    assert_eq!(db.places[0].frecency, -1);
    assert_eq!(row.place_id, Some(db.places[0].id));
}

#[test]
fn staging_again_replaces_the_row() {
    let mut db = PlacesDb::new(ConnectionType::Sync);
    let mut first = bookmark_record("bookmarkAAAA", "unfiled", "A", "http://example.com/a");
    if let BookmarkItemRecord::Bookmark(b) = &mut first {
        b.tags = vec!["one".to_string(), "two".to_string()];
    }
    apply_payload(&mut db, &first, ServerTimestamp(1)).expect("should stage");
    assert_eq!(db.synced_tags.len(), 2);
    apply_payload(
        &mut db,
        &bookmark_record("bookmarkAAAA", "menu", "", "http://example.com/b"),
        ServerTimestamp(2),
    )
    .expect("should stage");
    assert_eq!(db.synced.iter().filter(|v| v.guid == "bookmarkAAAA").count(), 1);
    let row = db.synced.iter().find(|v| v.guid == "bookmarkAAAA").unwrap();
    assert_eq!(row.parent_guid.as_deref(), Some("menu________"));
    assert_eq!(row.title, None);
    assert_eq!(row.server_modified, 2);
    assert_eq!(db.synced_tags.len(), 0);
    assert_eq!(db.places.len(), 2);
}

#[test]
fn a_folder_with_a_nameless_child_goes_back_up() {
    let mut db = PlacesDb::new(ConnectionType::Sync);
    apply_payload(
        &mut db,
        &folder_record("folderAAAAAA", "menu", &["bookmarkAAAA", "", "bookmarkBBBB"]),
        ServerTimestamp(0),
    )
    .expect("should stage");
    let row = db.synced.iter().find(|v| v.guid == "folderAAAAAA").expect("staged");
    assert_eq!(row.validity, SyncedBookmarkValidity::Reupload);
    let children: Vec<(&str, i64)> = db
        .synced_structure
        .iter()
        .filter(|s| s.parent_guid == "folderAAAAAA")
        .map(|s| (s.guid.as_str(), s.position))
        .collect();
    assert_eq!(children, vec![("bookmarkAAAA", 0), ("bookmarkBBBB", 1)]);

    apply_payload(&mut db, &folder_record("folderAAAAAA", "menu", &["bookmarkBBBB"]), ServerTimestamp(0))
        .expect("should stage");
    let row = db.synced.iter().find(|v| v.guid == "folderAAAAAA").expect("staged");
    assert_eq!(row.validity, SyncedBookmarkValidity::Valid);
    let children: Vec<&str> = db
        .synced_structure
        .iter()
        .filter(|s| s.parent_guid == "folderAAAAAA")
        .map(|s| s.guid.as_str())
        .collect();
    assert_eq!(children, vec!["bookmarkBBBB"]);
}

#[test]
fn tombstones_livemarks_and_unknown_kinds() {
    let mut db = PlacesDb::new(ConnectionType::Sync);
    apply_payload(
        &mut db,
        &BookmarkItemRecord::Tombstone { record_id: "bookmarkAAAA".to_string() },
        ServerTimestamp(3),
    )
    .expect("should stage");
    let row = db.synced.iter().find(|v| v.guid == "bookmarkAAAA").expect("staged");
    assert!(row.is_deleted && row.needs_merge);
    assert_eq!(row.validity, SyncedBookmarkValidity::Valid);

    apply_payload(
        &mut db,
        &BookmarkItemRecord::Livemark(LivemarkRecord {
            record_id: "livemarkAAAA".to_string(),
            parent_record_id: Some("menu".to_string()),
            parent_title: None,
            date_added: None,
            has_dupe: false,
            title: Some("L".to_string()),
        }),
        ServerTimestamp(3),
    )
    .expect("should stage");
    let row = db.synced.iter().find(|v| v.guid == "livemarkAAAA").expect("staged");
    assert_eq!(row.kind, SyncedBookmarkKind::Livemark);

    apply_payload(
        &mut db,
        &BookmarkItemRecord::Separator(SeparatorRecord {
            record_id: "separatorAAA".to_string(),
            parent_record_id: Some("menu".to_string()),
            parent_title: None,
            date_added: None,
            has_dupe: false,
            position: Some(1),
        }),
        ServerTimestamp(3),
    )
    .expect("should stage");
    assert_eq!(
        db.synced.iter().find(|v| v.guid == "separatorAAA").expect("staged").kind,
        SyncedBookmarkKind::Separator
    );

    let before = db.synced.len();
    apply_payload(
        &mut db,
        &BookmarkItemRecord::Unknown { record_id: "somethingAAA".to_string() },
        ServerTimestamp(3),
    )
    .expect("should pass over");
    assert_eq!(db.synced.len(), before);
}

#[test]
fn a_malformed_record_is_left_out_and_the_batch_goes_on() {
    let mut db = PlacesDb::new(ConnectionType::Sync);
    let nameless = bookmark_record("", "unfiled", "A", "http://example.com/a");
    assert_eq!(apply_payload(&mut db, &nameless, ServerTimestamp(0)), Err(ErrorKind::InvalidPayload));
    assert_eq!(db.synced.len(), 5);
    assert_eq!(db.places.len(), 0);

    let mut store = new_store();
    let mut incoming = IncomingChangeset::new("bookmarks".to_string(), ServerTimestamp(77));
    for record in vec![
        bookmark_record("", "unfiled", "A", "http://example.com/a"),
        bookmark_record("bookmarkBBBB", "unfiled", "B", "http://example.com/b"),
    ] {
        incoming.changes.push(IncomingChange { record, server_modified: ServerTimestamp(1) });
    }
    let mut report = EngineIncoming::new();
    assert_eq!(store.stage_incoming(&incoming, &mut report), Ok(ServerTimestamp(77)));
    assert_eq!(report, EngineIncoming { applied: 1, failed: 1 });
    assert_eq!(store.db.synced.len(), 6);
}

#[test]
fn a_full_table_of_places_refuses_a_new_url() {
    let mut store = new_store();
    store.db.places.push(Place { id: i64::MAX, url: "http://example.com/last".to_string(), frecency: 0 });
    let record = bookmark_record("bookmarkAAAA", "unfiled", "A", "http://example.com/a");
    let mut db = store.db.duplicate();
    assert_eq!(apply_payload(&mut db, &record, ServerTimestamp(0)), Err(ErrorKind::Storage));
    assert_eq!(db.synced.len(), 5);

    let mut incoming = IncomingChangeset::new("bookmarks".to_string(), ServerTimestamp(0));
    incoming.changes.push(IncomingChange { record, server_modified: ServerTimestamp(0) });
    assert_eq!(store.stage_incoming(&incoming, &mut EngineIncoming::new()), Err(ErrorKind::Storage));
    assert_eq!(store.db.synced.len(), 5);
}

#[test]
fn a_store_without_roots_is_corrupt() {
    let mut store = new_store();
    store.db.bookmarks.clear();
    let merger = Merger::new(ServerTimestamp(0), Timestamp(0));
    assert_eq!(
        merger.fetch_local_tree(&store).err(),
        Some(ErrorKind::Corruption(Corruption::InvalidLocalRoots))
    );

    let mut store = new_store();
    store.db.synced.clear();
    assert_eq!(
        merger.fetch_remote_tree(&store).err(),
        Some(ErrorKind::Corruption(Corruption::InvalidSyncedRoots))
    );
    // The merge fails, and leaves the store as it was.
    let before = store.db.bookmarks.len();
    assert_eq!(
        merger.merge(&mut store, &mut Engine::new("bookmarks")),
        Err(ErrorKind::Corruption(Corruption::InvalidSyncedRoots))
    );
    assert_eq!(store.db.bookmarks.len(), before);
}

#[test]
fn the_builder_refuses_a_guid_that_comes_twice() {
    let mut store = new_store();
    let twin = store.db.synced[1].duplicate();
    store.db.synced.push(twin);
    let merger = Merger::new(ServerTimestamp(0), Timestamp(0));
    assert_eq!(
        merger.fetch_remote_tree(&store).err(),
        Some(ErrorKind::Merge(MergeError::DuplicateItem))
    );
}

#[test]
fn local_tombstones_are_noted_in_the_local_tree() {
    let mut store = new_store();
    store.db.deleted.push(bookmark_sync::rows::Tombstone { guid: "bookmarkAAAA".to_string(), date_removed: 1 });
    let merger = Merger::new(ServerTimestamp(0), Timestamp(0));
    let tree = merger.fetch_local_tree(&store).expect("should build");
    assert!(tree.is_deleted(&"bookmarkAAAA".into()));
    assert!(!tree.is_deleted(&"bookmarkBBBB".into()));
    assert!(store.has_changes());
}

#[test]
fn the_local_tree_comes_level_by_level_and_by_position() {
    let mut store = new_store();
    let item = |id: i64, guid: &str, parent: i64, position: i64, typ: BookmarkType| LocalItem {
        id,
        guid: guid.to_string(),
        parent: Some(parent),
        position,
        typ,
        title: None,
        place_id: None,
        date_added: 0,
        last_modified: 40,
        sync_change_counter: 0,
        sync_status: SyncStatus::Normal,
    };
    // Below the menu (key 2): B at 1, a folder A at 0 with a child C.
    store.db.bookmarks.push(item(10, "bookmarkBBBB", 2, 1, BookmarkType::Bookmark));
    store.db.bookmarks.push(item(11, "bookmarkCCCC", 12, 0, BookmarkType::Bookmark));
    store.db.bookmarks.push(item(12, "folderAAAAAA", 2, 0, BookmarkType::Folder));
    // An item that hangs nowhere is no part of the tree.
    store.db.bookmarks.push(item(13, "bookmarkDDDD", 99, 0, BookmarkType::Bookmark));
    let merger = Merger::new(ServerTimestamp(0), Timestamp(100));
    let (root, rows) = merger
        .local_tree_rows(&store.db.bookmarks, &store.db.places)
        .expect("should have a root");
    assert_eq!(root.guid, "root________");
    assert_eq!(root.age, 100);
    let order: Vec<(&str, &str)> =
        rows.iter().map(|r| (r.item.guid.as_str(), r.parent_guid.as_str())).collect();
    assert_eq!(
        order,
        vec![
            ("menu________", "root________"),
            ("toolbar_____", "root________"),
            ("unfiled_____", "root________"),
            ("mobile______", "root________"),
            ("folderAAAAAA", "menu________"),
            ("bookmarkBBBB", "menu________"),
            ("bookmarkCCCC", "folderAAAAAA"),
        ]
    );
    assert_eq!(rows[4].item.kind, SyncedBookmarkKind::Folder);
    assert_eq!(rows[5].item.age, 60);
    assert!(!rows[5].item.needs_merge);
}

#[test]
fn remote_rows_carry_age_and_validity() {
    let merger = Merger::new(ServerTimestamp(5_000), Timestamp(0));
    let row = SyncedItem {
        guid: "bookmarkAAAA".to_string(),
        parent_guid: None,
        kind: SyncedBookmarkKind::Query,
        title: None,
        place_id: None,
        keyword: None,
        date_added: 0,
        server_modified: 1_500,
        needs_merge: true,
        is_deleted: false,
        validity: SyncedBookmarkValidity::Reupload,
    };
    let item = merger.remote_row_to_item(&row);
    assert_eq!(item.guid, "bookmarkAAAA");
    assert_eq!(item.kind, SyncedBookmarkKind::Query);
    assert_eq!(item.age, 3_500);
    assert!(item.needs_merge);
    assert_eq!(item.validity, SyncedBookmarkValidity::Reupload);
}

#[test]
fn new_local_contents_are_those_the_server_has_not_seen() {
    let mut store = new_store();
    store.db.places.push(Place { id: 1, url: "http://example.com/a".to_string(), frecency: 0 });
    let item = |id: i64, guid: &str, typ: BookmarkType, status: SyncStatus, place: Option<i64>| LocalItem {
        id,
        guid: guid.to_string(),
        parent: Some(2),
        position: id - 10,
        typ,
        title: Some("T".to_string()),
        place_id: place,
        date_added: 0,
        last_modified: 0,
        sync_change_counter: 1,
        sync_status: status,
    };
    store.db.bookmarks.push(item(10, "bookmarkAAAA", BookmarkType::Bookmark, SyncStatus::New, Some(1)));
    store.db.bookmarks.push(item(11, "bookmarkBBBB", BookmarkType::Bookmark, SyncStatus::Normal, Some(1)));
    store.db.bookmarks.push(item(12, "bookmarkCCCC", BookmarkType::Bookmark, SyncStatus::New, None));
    store.db.bookmarks.push(item(13, "folderAAAAAA", BookmarkType::Folder, SyncStatus::Unknown, None));
    store.db.bookmarks.push(item(14, "separatorAAA", BookmarkType::Separator, SyncStatus::New, None));
    let merger = Merger::new(ServerTimestamp(0), Timestamp(0));
    let contents = merger.fetch_new_local_contents(&store).expect("should fetch");
    let guids: Vec<&str> = contents.iter().map(|c| c.guid.as_str()).collect();
    // The roots are children of the synthetic root, B is known to the
    // server, and C has no URL.
    assert_eq!(guids, vec!["bookmarkAAAA", "folderAAAAAA", "separatorAAA"]);
    assert!(matches!(
        &contents[0].content,
        ItemContent::Bookmark { title, url_href } if title == "T" && url_href == "http://example.com/a"
    ));
    assert!(matches!(&contents[1].content, ItemContent::Folder { title } if title == "T"));
    assert!(matches!(&contents[2].content, ItemContent::Separator { position: 4 }));
}

#[test]
fn outgoing_records_of_every_kind() {
    let mut store = new_store();
    let mut a = upload("bookmarkAAAA", 10, SyncedBookmarkKind::Bookmark);
    a.title = Some("A".to_string());
    a.url = Some("http://example.com/a".to_string());
    a.keyword = Some("a".to_string());
    a.parent_title = Some("menu".to_string());
    let mut q = upload("queryAAAAAAA", 11, SyncedBookmarkKind::Query);
    q.url = Some("place:sort=8".to_string());
    let f = upload("toolbar_____", 3, SyncedBookmarkKind::Folder);
    let l = upload("livemarkAAAA", 12, SyncedBookmarkKind::Livemark);
    let s = upload("separatorAAA", 13, SyncedBookmarkKind::Separator);
    let mut t = upload("bookmarkDDDD", 0, SyncedBookmarkKind::Bookmark);
    t.id = None;
    t.is_deleted = true;
    store.db.items_to_upload = vec![a, q, f, l, s, t];
    store.db.structure_to_upload = vec![
        UploadStructure { guid: "bookmarkCCCC".to_string(), parent_id: 3, position: 2 },
        UploadStructure { guid: "bookmarkZZZZ".to_string(), parent_id: 4, position: 0 },
        UploadStructure { guid: "bookmarkBBBB".to_string(), parent_id: 3, position: 0 },
    ];
    store.db.tags_to_upload = vec![
        UploadTag { id: 10, tag: "one".to_string() },
        UploadTag { id: 11, tag: "other".to_string() },
        UploadTag { id: 10, tag: "two".to_string() },
    ];
    let outgoing = store.fetch_outgoing_records(ServerTimestamp(123)).expect("should inflate");
    assert_eq!(outgoing.collection, "bookmarks");
    assert_eq!(outgoing.timestamp, ServerTimestamp(123));
    // The livemark is left out.
    assert_eq!(outgoing.changes.len(), 5);
    match &outgoing.changes[0] {
        BookmarkItemRecord::Bookmark(b) => {
            assert_eq!(b.record_id, "bookmarkAAAA");
            assert_eq!(b.parent_record_id.as_deref(), Some("menu"));
            assert_eq!(b.parent_title.as_deref(), Some("menu"));
            assert_eq!(b.date_added, Some(7));
            assert!(b.has_dupe);
            assert_eq!(b.title.as_deref(), Some("A"));
            assert_eq!(b.url.as_deref(), Some("http://example.com/a"));
            assert_eq!(b.keyword.as_deref(), Some("a"));
            assert_eq!(b.tags, vec!["one", "two"]);
        }
        other => panic!("unexpected record {:?}", other),
    }
    match &outgoing.changes[1] {
        BookmarkItemRecord::Query(q) => {
            assert_eq!(q.record_id, "queryAAAAAAA");
            assert_eq!(q.title.as_deref(), Some(""));
            assert_eq!(q.parent_title.as_deref(), Some(""));
            assert_eq!(q.url.as_deref(), Some("place:sort=8"));
            assert_eq!(q.tag_folder_name, None);
        }
        other => panic!("unexpected record {:?}", other),
    }
    match &outgoing.changes[2] {
        BookmarkItemRecord::Folder(f) => {
            assert_eq!(f.record_id, "toolbar");
            assert_eq!(f.children, vec!["bookmarkBBBB", "bookmarkCCCC"]);
        }
        other => panic!("unexpected record {:?}", other),
    }
    match &outgoing.changes[3] {
        BookmarkItemRecord::Separator(s) => {
            assert_eq!(s.record_id, "separatorAAA");
            assert_eq!(s.position, Some(3));
        }
        other => panic!("unexpected record {:?}", other),
    }
    assert!(matches!(
        &outgoing.changes[4],
        BookmarkItemRecord::Tombstone { record_id } if record_id == "bookmarkDDDD"
    ));
}

#[test]
fn a_staged_item_that_lacks_its_url_cannot_be_read() {
    let mut store = new_store();
    store.db.items_to_upload = vec![upload("bookmarkAAAA", 10, SyncedBookmarkKind::Bookmark)];
    assert_eq!(store.fetch_outgoing_records(ServerTimestamp(0)).err(), Some(ErrorKind::Storage));
    let mut kindless = upload("bookmarkAAAA", 10, SyncedBookmarkKind::Folder);
    kindless.kind = None;
    store.db.items_to_upload = vec![kindless];
    assert_eq!(store.fetch_outgoing_records(ServerTimestamp(0)).err(), Some(ErrorKind::Storage));
    store.interruptee.interrupt();
    assert_eq!(store.fetch_outgoing_records(ServerTimestamp(0)).err(), Some(ErrorKind::Interrupted));
}

#[test]
fn the_most_recently_stale_come_first_and_400_at_a_time() {
    let mut stale = vec![
        StaleFrecency { place_id: 1, stale_at: 10 },
        StaleFrecency { place_id: 2, stale_at: 30 },
        StaleFrecency { place_id: 3, stale_at: 20 },
        StaleFrecency { place_id: 4, stale_at: 30 },
    ];
    assert_eq!(stale_chunk(&stale), vec![2, 4, 3, 1]);
    for id in 5..1000 {
        stale.push(StaleFrecency { place_id: id, stale_at: 5 });
    }
    let chunk = stale_chunk(&stale);
    assert_eq!(chunk.len(), 400);
    assert_eq!(&chunk[..5], &[2, 4, 3, 1, 5]);
    assert_eq!(stale_chunk(&vec![]).len(), 0);
}

#[test]
fn every_stale_frecency_is_recalculated() {
    let mut store = new_store();
    for id in 1..=1000 {
        store.db.places.push(Place { id, url: format!("http://example.com/{}", id), frecency: -1 });
        if id % 2 == 0 {
            store.db.stale_frecencies.push(StaleFrecency { place_id: id, stale_at: id });
        }
    }
    assert_eq!(store.db.frecency_stale_at(&"http://example.com/2".to_string()), Some(2));
    assert_eq!(store.db.frecency_stale_at(&"http://example.com/3".to_string()), None);
    store.update_frecencies(|id| (id * 2) as i32).expect("should update");
    assert!(store.db.stale_frecencies.is_empty());
    for place in store.db.places.iter() {
        let expected = if place.id % 2 == 0 { (place.id * 2) as i32 } else { -1 };
        assert_eq!(place.frecency, expected);
        assert_eq!(store.db.frecency_stale_at(&place.url), None);
    }

    store.db.stale_frecencies.push(StaleFrecency { place_id: 1, stale_at: 1 });
    store.interruptee.interrupt();
    assert_eq!(store.update_frecencies(|_| 0), Err(ErrorKind::Interrupted));
    assert_eq!(store.db.stale_frecencies.len(), 1);
}

#[test]
fn validation_names_the_problems_that_were_found() {
    let counts = dogear::ProblemCounts {
        orphans: 2,
        misparented_roots: 0,
        multiple_parents_by_children: 1,
        missing_parent_guids: 0,
        non_folder_parent_guids: 0,
        parent_child_disagreements: 3,
        missing_children: 4,
    };
    let validation = record_telemetry_event(&counts);
    let problems: Vec<(&str, usize)> =
        validation.problems.iter().map(|p| (p.name.as_str(), p.count)).collect();
    assert_eq!(
        problems,
        vec![("orphans", 2), ("multipleParents", 1), ("parentChildDisagreements", 3), ("missingChildren", 4)]
    );
}

#[test]
fn a_merge_reports_on_the_structure_of_the_remote_tree() {
    let mut store = new_store();
    // A bookmark whose parent the server never sent is an orphan.
    let mut incoming = IncomingChangeset::new("bookmarks".to_string(), ServerTimestamp(0));
    incoming.changes.push(IncomingChange {
        record: bookmark_record("bookmarkAAAA", "folderZZZZZZ", "A", "http://example.com/a"),
        server_modified: ServerTimestamp(0),
    });
    let mut telem = Engine::new("bookmarks");
    store.apply_incoming(&incoming, &mut telem, Timestamp(1_000)).expect("should apply");
    assert_eq!(telem.incoming, Some(EngineIncoming { applied: 1, failed: 0 }));
    let validation = telem.validation.expect("should report");
    let names: Vec<&str> = validation.problems.iter().map(|p| p.name.as_str()).collect();
    assert!(names.contains(&"missingParents"), "found {:?}", names);
    // The orphan ends up among the unfiled bookmarks.
    let unfiled = store.db.bookmarks.iter().find(|b| b.guid == "unfiled_____").unwrap().id;
    let a = store.db.bookmarks.iter().find(|b| b.guid == "bookmarkAAAA").expect("applied");
    assert_eq!(a.parent, Some(unfiled));
}

#[test]
fn a_merged_node_becomes_a_row() {
    let parts = |reason: dogear::UploadReason, level: usize| DescendantParts {
        local_guid: Some("bookmarkAAA1".to_string()),
        remote_guid: None,
        merged_guid: "bookmarkAAAA".to_string(),
        merged_parent_guid: "menu________".to_string(),
        level,
        position: 4,
        should_apply: true,
        upload_reason: reason,
    };
    let row = merged_row(&parts(dogear::UploadReason::None, 2)).expect("fits");
    assert_eq!(row.local_guid.as_deref(), Some("bookmarkAAA1"));
    assert_eq!(row.remote_guid, None);
    assert_eq!(row.merged_guid, "bookmarkAAAA");
    assert_eq!(row.merged_parent_guid, "menu________");
    assert_eq!((row.level, row.position), (2, 4));
    assert!(row.use_remote);
    assert!(!row.should_upload);
    assert!(merged_row(&parts(dogear::UploadReason::LocallyNew, 2)).unwrap().should_upload);
    assert!(merged_row(&parts(dogear::UploadReason::Merged, 2)).unwrap().should_upload);
    assert!(merged_row(&parts(dogear::UploadReason::NewStructure, 2)).unwrap().should_upload);
    assert!(merged_row(&parts(dogear::UploadReason::None, usize::MAX)).is_none());
}

#[test]
fn a_merged_tree_that_leaves_an_item_hanging_is_not_applied() {
    let mut store = new_store();
    store.db.bookmarks.push(LocalItem {
        id: 10,
        guid: "bookmarkAAAA".to_string(),
        parent: Some(2),
        position: 0,
        typ: BookmarkType::Bookmark,
        title: None,
        place_id: None,
        date_added: 0,
        last_modified: 0,
        sync_change_counter: 1,
        sync_status: SyncStatus::New,
    });
    let merger = Merger::new(ServerTimestamp(0), Timestamp(0));
    // The row moves A below a folder that the local tree does not have,
    // after the menu that held it is deleted.
    let rows = vec![MergedRow {
        local_guid: Some("bookmarkAAAA".to_string()),
        remote_guid: None,
        merged_guid: "bookmarkAAAA".to_string(),
        merged_parent_guid: "folderZZZZZZ".to_string(),
        level: 2,
        position: 0,
        use_remote: false,
        should_upload: true,
    }];
    let deletions = vec![RemovalRow {
        guid: "bookmarkAAAA".to_string(),
        local_level: 2,
        should_upload_tombstone: true,
    }];
    // Deleting A is fine.
    let mut copy = BookmarksStore::new(store.db.duplicate(), SqlInterruptScope::new());
    assert_eq!(merger.apply(&mut copy, &rows, &deletions), Ok(()));
    assert!(copy.db.bookmarks.iter().all(|b| b.guid != "bookmarkAAAA"));
    assert_eq!(copy.db.deleted.len(), 1);
    // Two rows that give two items the same guid are not.
    store.db.bookmarks.push(LocalItem {
        id: 11,
        guid: "bookmarkBBBB".to_string(),
        parent: Some(2),
        position: 1,
        typ: BookmarkType::Bookmark,
        title: None,
        place_id: None,
        date_added: 0,
        last_modified: 0,
        sync_change_counter: 0,
        sync_status: SyncStatus::Normal,
    });
    let clash = vec![MergedRow {
        local_guid: Some("bookmarkBBBB".to_string()),
        remote_guid: None,
        merged_guid: "bookmarkAAAA".to_string(),
        merged_parent_guid: "menu________".to_string(),
        level: 2,
        position: 1,
        use_remote: false,
        should_upload: false,
    }];
    assert_eq!(
        merger.apply(&mut store, &clash, &vec![]),
        Err(ErrorKind::Merge(MergeError::MergeConflict))
    );
    // Nothing changed.
    let guids: Vec<&str> = store.db.bookmarks.iter().map(|b| b.guid.as_str()).collect();
    assert!(guids.contains(&"bookmarkBBBB"));
    assert!(store.db.items_to_upload.is_empty());
}

#[test]
fn remote_tombstones_are_noted_in_the_remote_tree() {
    let mut db = PlacesDb::new(ConnectionType::Sync);
    apply_payload(
        &mut db,
        &BookmarkItemRecord::Tombstone { record_id: "bookmarkAAAA".to_string() },
        ServerTimestamp(3),
    )
    .expect("should stage");
    let store = BookmarksStore::new(db, SqlInterruptScope::new());
    let merger = Merger::new(ServerTimestamp(5), Timestamp(0));
    let tree = merger.fetch_remote_tree(&store).expect("should build");
    assert!(tree.is_deleted(&"bookmarkAAAA".into()));
    assert!(tree.node_for_guid(&"bookmarkAAAA".into()).is_none());
    assert_eq!(tree.guids().count(), 5 + 1);
    // A tombstone for an item that the local tree does not have is nothing
    // to merge.
    let mut quiet = BookmarksStore::new(store.db.duplicate(), SqlInterruptScope::new());
    for b in quiet.db.bookmarks.iter_mut() {
        b.sync_change_counter = 0;
    }
    assert!(!quiet.has_changes());
}

#[test]
fn two_folders_that_hold_each_other_are_a_cycle() {
    let mut store = new_store();
    let mut incoming = IncomingChangeset::new("bookmarks".to_string(), ServerTimestamp(0));
    for record in vec![
        folder_record("folderAAAAAA", "folderBBBBBB", &["folderBBBBBB"]),
        folder_record("folderBBBBBB", "folderAAAAAA", &["folderAAAAAA"]),
    ] {
        incoming.changes.push(IncomingChange { record, server_modified: ServerTimestamp(0) });
    }
    store.stage_incoming(&incoming, &mut EngineIncoming::new()).expect("should stage");
    let merger = Merger::new(ServerTimestamp(0), Timestamp(0));
    assert_eq!(
        merger.fetch_remote_tree(&store).err(),
        Some(ErrorKind::Corruption(Corruption::Cycle))
    );
    assert_eq!(ErrorKind::Corruption(Corruption::Cycle).message(), "An item contains itself");
}

#[test]
fn a_local_tree_with_two_roots_is_corrupt() {
    let mut store = new_store();
    let mut second = store.db.bookmarks[0].duplicate();
    second.id = 50;
    store.db.bookmarks.push(second);
    let merger = Merger::new(ServerTimestamp(0), Timestamp(0));
    assert_eq!(
        merger.fetch_local_tree(&store).err(),
        Some(ErrorKind::Corruption(Corruption::InvalidLocalRoots))
    );
}

#[test]
fn an_interrupted_store_gives_up_before_it_starts() {
    let mut store = new_store();
    store.interruptee.interrupt();
    assert!(store.interruptee.was_interrupted());
    assert_eq!(store.interruptee.err_if_interrupted(), Err(ErrorKind::Interrupted));
    let merger = Merger::new(ServerTimestamp(0), Timestamp(0));
    assert_eq!(merger.fetch_local_tree(&store).err(), Some(ErrorKind::Interrupted));
    assert_eq!(merger.fetch_remote_tree(&store).err(), Some(ErrorKind::Interrupted));
    assert_eq!(merger.fetch_new_local_contents(&store).err(), Some(ErrorKind::Interrupted));
    assert_eq!(merger.fetch_new_remote_contents(&store).err(), Some(ErrorKind::Interrupted));
    assert_eq!(merger.merge(&mut store, &mut Engine::new("bookmarks")), Err(ErrorKind::Interrupted));
    assert_eq!(store.update_local_items(Timestamp(0), &vec![], &vec![]), Err(ErrorKind::Interrupted));
    assert_eq!(store.push_synced_items(ServerTimestamp(9), &vec![]), Err(ErrorKind::Interrupted));
    assert_eq!(store.db.meta.last_sync, None);
    assert_eq!(
        store.stage_incoming(
            &IncomingChangeset::new("bookmarks".to_string(), ServerTimestamp(0)),
            &mut EngineIncoming::new()
        ),
        Err(ErrorKind::Interrupted)
    );
    assert_eq!(SqlInterruptScope::new().err_if_interrupted(), Ok(()));
}

#[test]
fn a_local_tree_without_keys_left_takes_no_new_item() {
    let mut store = new_store();
    store.db.bookmarks[4].id = i64::MAX;
    let rows = vec![MergedRow {
        local_guid: None,
        remote_guid: Some("bookmarkAAAA".to_string()),
        merged_guid: "bookmarkAAAA".to_string(),
        merged_parent_guid: "menu________".to_string(),
        level: 2,
        position: 0,
        use_remote: true,
        should_upload: false,
    }];
    assert_eq!(store.update_local_items(Timestamp(0), &rows, &vec![]), Err(ErrorKind::Storage));
    assert_eq!(store.db.bookmarks.len(), 5);
}

#[test]
fn applying_a_merged_tree_row_by_row() {
    let mut store = new_store();
    // The mirror has a bookmark A below the menu, with a tag; the local tree
    // has B, which the merge gives the guid C, and D, which it deletes.
    apply_payload(
        &mut store.db,
        &BookmarkItemRecord::Bookmark(BookmarkRecord {
            record_id: "bookmarkAAAA".to_string(),
            parent_record_id: Some("menu".to_string()),
            parent_title: None,
            date_added: Some(40),
            has_dupe: false,
            title: Some("A".to_string()),
            url: Some("http://example.com/a".to_string()),
            keyword: None,
            tags: vec!["tag".to_string()],
        }),
        ServerTimestamp(1),
    )
    .expect("should stage");
    let local = |id: i64, guid: &str, position: i64| LocalItem {
        id,
        guid: guid.to_string(),
        parent: Some(4),
        position,
        typ: BookmarkType::Folder,
        title: Some("local".to_string()),
        place_id: None,
        date_added: 10,
        last_modified: 10,
        sync_change_counter: 0,
        sync_status: SyncStatus::Normal,
    };
    store.db.bookmarks.push(local(10, "folderBBBBBB", 0));
    store.db.bookmarks.push(local(11, "folderDDDDDD", 1));
    store.db.deleted.push(bookmark_sync::rows::Tombstone { guid: "folderCCCCCC".to_string(), date_removed: 0 });
    let row = |local: Option<&str>, remote: Option<&str>, merged: &str, parent: &str, position: i64, use_remote: bool, should_upload: bool| MergedRow {
        local_guid: local.map(str::to_string),
        remote_guid: remote.map(str::to_string),
        merged_guid: merged.to_string(),
        merged_parent_guid: parent.to_string(),
        level: 2,
        position,
        use_remote,
        should_upload,
    };
    let rows = vec![
        row(Some("menu________"), Some("menu________"), "menu________", "root________", 0, false, false),
        row(None, Some("bookmarkAAAA"), "bookmarkAAAA", "menu________", 1, true, false),
        row(Some("folderBBBBBB"), None, "folderCCCCCC", "menu________", 0, false, true),
    ];
    let deletions = vec![RemovalRow {
        guid: "folderDDDDDD".to_string(),
        local_level: 2,
        should_upload_tombstone: true,
    }];
    store.update_local_items(Timestamp(777), &rows, &deletions).expect("should apply");

    let a = store.db.bookmarks.iter().find(|b| b.guid == "bookmarkAAAA").expect("inserted");
    assert_eq!(a.id, 12);
    assert_eq!((a.parent, a.position), (Some(2), 1));
    assert_eq!(a.typ, BookmarkType::Bookmark);
    assert_eq!(a.title.as_deref(), Some("A"));
    assert_eq!(a.date_added, 40);
    assert_eq!(a.last_modified, 777);
    assert_eq!((a.sync_change_counter, a.sync_status), (0, SyncStatus::Normal));
    let place = store.db.places.iter().find(|p| p.url == "http://example.com/a").unwrap();
    assert_eq!(a.place_id, Some(place.id));
    assert_eq!(store.db.frecency_stale_at(&place.url), Some(777));
    let tags: Vec<&str> = store.db.tags.iter().filter(|t| t.place_id == place.id).map(|t| t.tag.as_str()).collect();
    assert_eq!(tags, vec!["tag"]);
    assert!(!store.db.synced.iter().find(|v| v.guid == "bookmarkAAAA").unwrap().needs_merge);

    // B has the merged guid, is flagged for upload, and moved to the menu.
    let c = store.db.bookmarks.iter().find(|b| b.guid == "folderCCCCCC").expect("renamed");
    assert_eq!(c.id, 10);
    assert_eq!((c.parent, c.position), (Some(2), 0));
    assert_eq!(c.sync_change_counter, 1);
    assert_eq!(c.title.as_deref(), Some("local"));
    assert!(store.db.bookmarks.iter().all(|b| b.guid != "folderBBBBBB"));
    // D is gone and left a tombstone; the tombstone for C is gone, for C lives.
    assert!(store.db.bookmarks.iter().all(|b| b.guid != "folderDDDDDD"));
    let tombstones: Vec<(&str, i64)> =
        store.db.deleted.iter().map(|d| (d.guid.as_str(), d.date_removed)).collect();
    assert_eq!(tombstones, vec![("folderDDDDDD", 777)]);
    // The menu stayed where it was.
    let menu = store.db.bookmarks.iter().find(|b| b.guid == "menu________").unwrap();
    assert_eq!((menu.parent, menu.position), (Some(1), 0));

    // What goes up: the menu, which has a change of its own, C, which the
    // merge flagged, and the tombstone. A does not: the remote side won.
    store.stage_local_items_to_upload(&rows);
    let staged: Vec<(&str, bool)> =
        store.db.items_to_upload.iter().map(|u| (u.guid.as_str(), u.is_deleted)).collect();
    assert_eq!(
        staged,
        vec![("menu________", false), ("folderCCCCCC", false), ("folderDDDDDD", true)]
    );
    let c = &store.db.items_to_upload[1];
    assert_eq!(c.parent_guid.as_deref(), Some("menu________"));
    assert_eq!(c.kind, Some(SyncedBookmarkKind::Folder));
    assert_eq!(c.sync_change_counter, 1);
    assert_eq!(c.position, Some(0));
    let mut children: Vec<(i64, &str)> = store
        .db
        .structure_to_upload
        .iter()
        .filter(|s| s.parent_id == 2)
        .map(|s| (s.position, s.guid.as_str()))
        .collect();
    children.sort();
    assert_eq!(children, vec![(0, "folderCCCCCC"), (1, "bookmarkAAAA")]);
    assert_eq!(store.db.structure_to_upload.len(), 2);
}

#[test]
fn an_older_local_item_goes_up_though_the_remote_side_won() {
    let mut store = new_store();
    apply_payload(
        &mut store.db,
        &bookmark_record("bookmarkAAAA", "menu", "A", "http://example.com/a"),
        ServerTimestamp(1),
    )
    .expect("should stage");
    let place = store.db.places[0].id;
    store.db.bookmarks.push(LocalItem {
        id: 10,
        guid: "bookmarkAAAA".to_string(),
        parent: Some(2),
        position: 0,
        typ: BookmarkType::Bookmark,
        title: Some("old".to_string()),
        place_id: Some(place),
        // The record says 5.
        date_added: 3,
        last_modified: 3,
        sync_change_counter: 0,
        sync_status: SyncStatus::Normal,
    });
    let rows = vec![MergedRow {
        local_guid: Some("bookmarkAAAA".to_string()),
        remote_guid: Some("bookmarkAAAA".to_string()),
        merged_guid: "bookmarkAAAA".to_string(),
        merged_parent_guid: "menu________".to_string(),
        level: 2,
        position: 0,
        use_remote: true,
        should_upload: false,
    }];
    store.update_local_items(Timestamp(9), &rows, &vec![]).expect("should apply");
    let a = store.db.bookmarks.iter().find(|b| b.guid == "bookmarkAAAA").unwrap();
    assert_eq!(a.title.as_deref(), Some("A"));
    assert_eq!(a.date_added, 3);
    assert_eq!(a.sync_change_counter, 0);
    // The place did not change, so its frecency is not stale.
    assert!(store.db.stale_frecencies.is_empty());
    store.stage_local_items_to_upload(&rows);
    let staged: Vec<&str> = store.db.items_to_upload.iter().map(|u| u.guid.as_str()).collect();
    assert_eq!(staged, vec!["bookmarkAAAA"]);
    assert_eq!(store.db.items_to_upload[0].date_added, Some(3));
    assert_eq!(store.db.items_to_upload[0].url.as_deref(), Some("http://example.com/a"));
}

#[test]
fn a_change_counter_never_goes_below_zero() {
    let mut store = new_store();
    // The snapshot of the menu holds three changes, the menu only one.
    let mut staged = upload("menu________", 2, SyncedBookmarkKind::Folder);
    staged.sync_change_counter = 3;
    store.db.items_to_upload = vec![staged];
    store
        .push_synced_items(ServerTimestamp(5), &vec!["menu".to_string()])
        .expect("should push");
    let menu = store.db.bookmarks.iter().find(|b| b.guid == "menu________").unwrap();
    assert_eq!(menu.sync_change_counter, 0);
    assert_eq!(menu.sync_status, SyncStatus::Normal);
}

#[test]
fn the_merger_says_why_it_gives_up() {
    let local = |id: i64, guid: &str, parent: i64, typ: BookmarkType| LocalItem {
        id,
        guid: guid.to_string(),
        parent: Some(parent),
        position: 0,
        typ,
        title: None,
        place_id: None,
        date_added: 0,
        last_modified: 0,
        sync_change_counter: 1,
        sync_status: SyncStatus::New,
    };
    let merger = Merger::new(ServerTimestamp(0), Timestamp(0));

    // A separator cannot hold an item.
    let mut store = new_store();
    store.db.bookmarks.push(local(10, "separatorAAA", 2, BookmarkType::Separator));
    store.db.bookmarks.push(local(11, "folderBBBBBB", 10, BookmarkType::Folder));
    assert_eq!(
        merger.fetch_local_tree(&store).err(),
        Some(ErrorKind::Merge(MergeError::InvalidParent))
    );

    // A guid that is none is not taken.
    let mut store = new_store();
    store.db.bookmarks.push(local(10, "folder!", 2, BookmarkType::Folder));
    let before = store.db.bookmarks.len();
    assert_eq!(
        merger.merge(&mut store, &mut Engine::new("bookmarks")),
        Err(ErrorKind::Merge(MergeError::InvalidGuid))
    );
    assert_eq!(store.db.bookmarks.len(), before);
    assert!(store.db.items_to_upload.is_empty());

    // A folder and a bookmark cannot be the same item.
    let mut store = new_store();
    store.db.bookmarks.push(local(10, "itemAAAAAAAA", 2, BookmarkType::Folder));
    let mut incoming = IncomingChangeset::new("bookmarks".to_string(), ServerTimestamp(0));
    for record in vec![
        folder_record("menu", "places", &["itemAAAAAAAA"]),
        bookmark_record("itemAAAAAAAA", "menu", "A", "http://example.com/a"),
    ] {
        incoming.changes.push(IncomingChange { record, server_modified: ServerTimestamp(0) });
    }
    store.stage_incoming(&incoming, &mut EngineIncoming::new()).expect("should stage");
    assert_eq!(
        merger.merge(&mut store, &mut Engine::new("bookmarks")),
        Err(ErrorKind::Merge(MergeError::MismatchedItemKind))
    );
}
