use bookmark_sync::db::PlacesDb;
use bookmark_sync::error::ErrorKind;
use bookmark_sync::merger::Merger;
use bookmark_sync::record::{
    BookmarkItemRecord, BookmarkRecord, CollSyncIds, FolderRecord, IncomingChange,
    IncomingChangeset, OutgoingChangeset, QueryRecord, SeparatorRecord, StoreSyncAssociation,
};
use bookmark_sync::rows::{LocalItem, Place, TagRelation};
use bookmark_sync::store::{BookmarksStore, SqlInterruptScope};
use bookmark_sync::telemetry::Engine;
use bookmark_sync::types::{
    BookmarkType, ConnectionType, ServerTimestamp, SyncStatus, SyncedBookmarkValidity, Timestamp,
};

const NOW: i64 = 1_600_000_000_000;

const ROOT: &str = "root________";
const MENU: &str = "menu________";
const TOOLBAR: &str = "toolbar_____";
const UNFILED: &str = "unfiled_____";
const MOBILE: &str = "mobile______";

fn new_store() -> BookmarksStore {
    BookmarksStore::new(PlacesDb::new(ConnectionType::Sync), SqlInterruptScope::new())
}

fn now() -> Timestamp {
    Timestamp(NOW as u64)
}

/// A local item to insert, with its children.
struct Node {
    guid: &'static str,
    typ: BookmarkType,
    title: Option<&'static str>,
    url: Option<&'static str>,
    modified: Option<i64>,
    children: Vec<Node>,
}

fn local_bookmark(guid: &'static str, title: &'static str, url: &'static str) -> Node {
    Node { guid, typ: BookmarkType::Bookmark, title: Some(title), url: Some(url), modified: None, children: vec![] }
}

fn local_folder(guid: &'static str, title: &'static str, children: Vec<Node>) -> Node {
    Node { guid, typ: BookmarkType::Folder, title: Some(title), url: None, modified: None, children }
}

fn local_separator(guid: &'static str) -> Node {
    Node { guid, typ: BookmarkType::Separator, title: None, url: None, modified: None, children: vec![] }
}

fn at(mut node: Node, modified: i64) -> Node {
    node.modified = Some(modified);
    for child in node.children.iter_mut() {
        if child.modified.is_none() {
            child.modified = Some(modified);
        }
    }
    node
}

fn place_for(db: &mut PlacesDb, url: &str) -> i64 {
    if let Some(place) = db.places.iter().find(|p| p.url == url) {
        return place.id;
    }
    let id = db.places.iter().map(|p| p.id).max().unwrap_or(0) + 1;
    db.places.push(Place { id, url: url.to_string(), frecency: -1 });
    id
}

/// Inserts local items below the folder `parent_guid`, as a user would: each
/// new item counts one change, and the folder that gets them counts one.
fn insert_local_tree(db: &mut PlacesDb, parent_guid: &str, children: Vec<Node>) {
    let parent = db.bookmarks.iter().position(|b| b.guid == parent_guid).expect("parent exists");
    let parent_id = db.bookmarks[parent].id;
    if !children.is_empty() {
        db.bookmarks[parent].sync_change_counter += 1;
    }
    for child in children {
        let position = db.bookmarks.iter().filter(|b| b.parent == Some(parent_id)).count() as i64;
        let id = db.bookmarks.iter().map(|b| b.id).max().unwrap_or(0) + 1;
        let place_id = child.url.map(|url| place_for(db, url));
        let modified = child.modified.unwrap_or(NOW - 1);
        db.bookmarks.push(LocalItem {
            id,
            guid: child.guid.to_string(),
            parent: Some(parent_id),
            position,
            typ: child.typ,
            title: child.title.map(|t| t.to_string()),
            place_id,
            date_added: modified,
            last_modified: modified,
            sync_change_counter: 1,
            sync_status: SyncStatus::New,
        });
        let parent = db.bookmarks.iter().position(|b| b.id == parent_id).unwrap();
        db.bookmarks[parent].last_modified = modified;
        insert_local_tree(db, child.guid, child.children);
    }
}

/// A local item as a test expects it.
#[derive(Debug, PartialEq)]
struct Seen {
    guid: String,
    title: Option<String>,
    url: Option<String>,
    children: Vec<Seen>,
}

fn seen(guid: &str, title: Option<&str>, url: Option<&str>, children: Vec<Seen>) -> Seen {
    Seen { guid: guid.to_string(), title: title.map(|t| t.to_string()), url: url.map(|u| u.to_string()), children }
}

fn children_of(db: &PlacesDb, guid: &str) -> Vec<Seen> {
    let parent = db.bookmarks.iter().find(|b| b.guid == guid).expect("folder exists");
    let mut children: Vec<&LocalItem> =
        db.bookmarks.iter().filter(|b| b.parent == Some(parent.id)).collect();
    children.sort_by_key(|b| b.position);
    children
        .into_iter()
        .map(|b| Seen {
            guid: b.guid.clone(),
            title: b.title.clone(),
            url: b.place_id.and_then(|id| db.places.iter().find(|p| p.id == id)).map(|p| p.url.clone()),
            children: children_of(db, &b.guid),
        })
        .collect()
}

fn guids_of(seen: &[Seen]) -> Vec<String> {
    seen.iter().map(|s| s.guid.clone()).collect()
}

fn bookmark(id: &str, parent: &str, parent_name: &str, title: &str, url: &str) -> BookmarkItemRecord {
    BookmarkItemRecord::Bookmark(BookmarkRecord {
        record_id: id.to_string(),
        parent_record_id: Some(parent.to_string()),
        parent_title: Some(parent_name.to_string()),
        date_added: None,
        has_dupe: false,
        title: Some(title.to_string()),
        url: Some(url.to_string()),
        keyword: None,
        tags: vec![],
    })
}

fn query(id: &str, parent: &str, parent_name: &str, title: &str, url: &str) -> BookmarkItemRecord {
    BookmarkItemRecord::Query(QueryRecord {
        record_id: id.to_string(),
        parent_record_id: Some(parent.to_string()),
        parent_title: Some(parent_name.to_string()),
        date_added: None,
        has_dupe: false,
        title: Some(title.to_string()),
        url: Some(url.to_string()),
        tag_folder_name: None,
    })
}

fn folder(id: &str, parent: &str, parent_name: &str, title: &str, children: &[&str]) -> BookmarkItemRecord {
    BookmarkItemRecord::Folder(FolderRecord {
        record_id: id.to_string(),
        parent_record_id: Some(parent.to_string()),
        parent_title: Some(parent_name.to_string()),
        date_added: None,
        has_dupe: false,
        title: Some(title.to_string()),
        children: children.iter().map(|c| c.to_string()).collect(),
    })
}

fn separator(id: &str, parent: &str, parent_name: &str) -> BookmarkItemRecord {
    BookmarkItemRecord::Separator(SeparatorRecord {
        record_id: id.to_string(),
        parent_record_id: Some(parent.to_string()),
        parent_title: Some(parent_name.to_string()),
        date_added: None,
        has_dupe: false,
        position: None,
    })
}

fn added(mut record: BookmarkItemRecord, date: i64) -> BookmarkItemRecord {
    match &mut record {
        BookmarkItemRecord::Bookmark(b) => b.date_added = Some(date),
        BookmarkItemRecord::Query(q) => q.date_added = Some(date),
        BookmarkItemRecord::Folder(f) => f.date_added = Some(date),
        BookmarkItemRecord::Livemark(l) => l.date_added = Some(date),
        BookmarkItemRecord::Separator(s) => s.date_added = Some(date),
        _ => {}
    }
    record
}

fn changeset(remote_time: i64, records: Vec<(BookmarkItemRecord, Option<i64>)>) -> IncomingChangeset {
    let mut incoming = IncomingChangeset::new("bookmarks".to_string(), ServerTimestamp(remote_time));
    for (record, modified) in records {
        incoming.changes.push(IncomingChange {
            record,
            server_modified: ServerTimestamp(modified.unwrap_or(remote_time)),
        });
    }
    incoming
}

fn plain(records: Vec<BookmarkItemRecord>) -> Vec<(BookmarkItemRecord, Option<i64>)> {
    records.into_iter().map(|r| (r, None)).collect()
}

/// Applies the records, and tells the store that all it staged went up.
fn apply_incoming(store: &mut BookmarksStore, remote_time: i64, records: Vec<(BookmarkItemRecord, Option<i64>)>) {
    let incoming = changeset(remote_time, records);
    store
        .apply_incoming(&incoming, &mut Engine::new("bookmarks"), now())
        .expect("Should apply incoming and stage outgoing records");
    let uploaded: Vec<String> = store.db.items_to_upload.iter().map(|u| u.guid.clone()).collect();
    store
        .push_synced_items(ServerTimestamp(remote_time), &uploaded)
        .expect("Should push synced changes back to the store");
}

fn outgoing_ids(outgoing: &OutgoingChangeset) -> Vec<String> {
    let mut ids: Vec<String> = outgoing.changes.iter().map(|r| r.id().clone()).collect();
    ids.sort();
    ids
}

fn zero_counters(db: &mut PlacesDb) {
    for b in db.bookmarks.iter_mut() {
        b.sync_change_counter = 0;
    }
}

fn counter_of(db: &PlacesDb, guid: &str) -> u32 {
    db.bookmarks.iter().find(|b| b.guid == guid).expect("item exists").sync_change_counter
}

#[test]
fn test_fetch_remote_tree() {
    let records = vec![
        added(
            BookmarkItemRecord::Bookmark(BookmarkRecord {
                record_id: "qqVTRWhLBOu3".to_string(),
                parent_record_id: Some("unfiled".to_string()),
                parent_title: Some("Unfiled Bookmarks".to_string()),
                date_added: None,
                has_dupe: false,
                title: Some("The title".to_string()),
                url: Some("https://example.com".to_string()),
                keyword: None,
                tags: vec![],
            }),
            1_381_542_355_843,
        ),
        added(folder("unfiled", "places", "", "Unfiled Bookmarks", &["qqVTRWhLBOu3"]), 0),
    ];
    let mut store = new_store();
    let incoming = changeset(0, plain(records));
    store
        .stage_incoming(&incoming, &mut bookmark_sync::telemetry::EngineIncoming::new())
        .expect("Should apply incoming and stage outgoing records");

    let merger = Merger::new(ServerTimestamp(0), now());
    let tree = merger.fetch_remote_tree(&store).expect("should build");

    // Each user root, plus the real root, plus the bookmark we added.
    assert_eq!(tree.guids().count(), 4 + 2);

    let node = tree.node_for_guid(&"qqVTRWhLBOu3".into()).expect("should exist");
    assert_eq!(node.needs_merge, true);
    assert_eq!(node.validity, dogear::Validity::Valid);
    assert_eq!(node.level(), 2);
    assert_eq!(node.is_syncable(), true);

    let node = tree.node_for_guid(&UNFILED.into()).expect("should exist");
    assert_eq!(node.needs_merge, true);
    assert_eq!(node.validity, dogear::Validity::Valid);
    assert_eq!(node.level(), 1);
    assert_eq!(node.is_syncable(), true);

    let node = tree.node_for_guid(&MENU.into()).expect("should exist");
    assert_eq!(node.needs_merge, false);
    assert_eq!(node.validity, dogear::Validity::Valid);
    assert_eq!(node.level(), 1);
    assert_eq!(node.is_syncable(), true);

    let node = tree.node_for_guid(&ROOT.into()).expect("should exist");
    assert_eq!(node.validity, dogear::Validity::Valid);
    assert_eq!(node.level(), 0);
    assert_eq!(node.is_syncable(), false);

    // We should have changes.
    assert_eq!(store.has_changes(), true);
}

#[test]
fn test_fetch_local_tree() {
    let mut store = new_store();
    zero_counters(&mut store.db);
    insert_local_tree(
        &mut store.db,
        UNFILED,
        vec![local_bookmark("bookmark1___", "the bookmark", "https://www.example.com/")],
    );

    let merger = Merger::new(ServerTimestamp(0), now());
    let tree = merger.fetch_local_tree(&store).expect("should build");

    // Each user root, plus the real root, plus the bookmark we added.
    assert_eq!(tree.guids().count(), 4 + 2);

    let node = tree.node_for_guid(&"bookmark1___".into()).expect("should exist");
    assert_eq!(node.needs_merge, true);
    assert_eq!(node.level(), 2);
    assert_eq!(node.is_syncable(), true);

    let node = tree.node_for_guid(&UNFILED.into()).expect("should exist");
    assert_eq!(node.needs_merge, true);
    assert_eq!(node.level(), 1);
    assert_eq!(node.is_syncable(), true);

    let node = tree.node_for_guid(&MENU.into()).expect("should exist");
    assert_eq!(node.needs_merge, false);
    assert_eq!(node.level(), 1);
    assert_eq!(node.is_syncable(), true);

    let node = tree.node_for_guid(&ROOT.into()).expect("should exist");
    assert_eq!(node.needs_merge, false);
    assert_eq!(node.level(), 0);
    assert_eq!(node.is_syncable(), false);

    // We should have changes.
    assert_eq!(store.has_changes(), true);
}

#[test]
fn test_apply_bookmark() {
    let mut store = new_store();
    apply_incoming(
        &mut store,
        0,
        plain(vec![
            added(
                bookmark("bookmark1___", "unfiled", "Unfiled Bookmarks", "Some bookmark", "http://example.com"),
                1_381_542_355_843,
            ),
            added(
                BookmarkItemRecord::Folder(FolderRecord {
                    record_id: "unfiled".to_string(),
                    parent_record_id: Some("root".to_string()),
                    parent_title: None,
                    date_added: None,
                    has_dupe: false,
                    title: Some("Unfiled".to_string()),
                    children: vec!["bookmark1___".to_string()],
                }),
                1_381_542_355_843,
            ),
        ]),
    );
    let unfiled = children_of(&store.db, UNFILED);
    assert_eq!(guids_of(&unfiled), vec!["bookmark1___"]);
    assert_eq!(unfiled[0].url.as_deref(), Some("http://example.com/"));
    assert!(
        store.db.frecency_stale_at(&"http://example.com/".to_string()).is_some(),
        "Should mark frecency for bookmark URL as stale"
    );

    insert_local_tree(&mut store.db, MENU, vec![local_bookmark("bookmark2___", "2", "http://example.com/2")]);
    apply_incoming(
        &mut store,
        0,
        plain(vec![
            added(folder("menu", "places", "", "menu", &["bookmark2___"]), 0),
            added(
                bookmark("bookmark2___", "menu", "menu", "2", "http://example.com/2-remote"),
                1_381_542_355_843,
            ),
        ]),
    );
    let menu = children_of(&store.db, MENU);
    assert_eq!(guids_of(&menu), vec!["bookmark2___"]);
    assert_eq!(menu[0].url.as_deref(), Some("http://example.com/2-remote"));
    assert!(
        store.db.frecency_stale_at(&"http://example.com/2".to_string()).is_some(),
        "Should mark frecency for old URL as stale"
    );
    assert!(
        store.db.frecency_stale_at(&"http://example.com/2-remote".to_string()).is_some(),
        "Should mark frecency for new URL as stale"
    );

    store.update_frecencies(|_| 100).expect("Should update frecencies");

    assert!(
        store.db.frecency_stale_at(&"http://example.com/".to_string()).is_none(),
        "Should recalculate frecency for first bookmark"
    );
    assert!(
        store.db.frecency_stale_at(&"http://example.com/2".to_string()).is_none(),
        "Should recalculate frecency for old URL"
    );
    assert!(
        store.db.frecency_stale_at(&"http://example.com/2-remote".to_string()).is_none(),
        "Should recalculate frecency for new URL"
    );
}

#[test]
fn test_apply_query() {
    let mut store = new_store();
    apply_incoming(
        &mut store,
        0,
        plain(vec![
            added(
                query("query1______", "unfiled", "Unfiled Bookmarks", "Some query", "place:tag=foo"),
                1_381_542_355_843,
            ),
            added(
                BookmarkItemRecord::Folder(FolderRecord {
                    record_id: "unfiled".to_string(),
                    parent_record_id: Some("root".to_string()),
                    parent_title: None,
                    date_added: None,
                    has_dupe: false,
                    title: Some("Unfiled".to_string()),
                    children: vec!["query1______".to_string()],
                }),
                1_381_542_355_843,
            ),
        ]),
    );
    let unfiled = children_of(&store.db, UNFILED);
    assert_eq!(guids_of(&unfiled), vec!["query1______"]);
    assert_eq!(unfiled[0].url.as_deref(), Some("place:tag=foo"));
    assert!(
        store.db.frecency_stale_at(&"place:tag=foo".to_string()).is_none(),
        "Should not mark frecency for queries as stale"
    );
}

#[test]
fn test_apply() {
    let mut store = new_store();
    zero_counters(&mut store.db);
    insert_local_tree(
        &mut store.db,
        UNFILED,
        vec![
            local_bookmark("bookmarkAAAA", "A", "http://example.com/a"),
            local_bookmark("bookmarkBBBB", "B", "http://example.com/b"),
        ],
    );
    let place_a = store.db.places.iter().find(|p| p.url == "http://example.com/a").unwrap().id;
    store.db.tags.push(TagRelation { place_id: place_a, tag: "baz".to_string() });

    let records = vec![
        added(
            BookmarkItemRecord::Bookmark(BookmarkRecord {
                record_id: "bookmarkCCCC".to_string(),
                parent_record_id: Some("menu".to_string()),
                parent_title: Some("menu".to_string()),
                date_added: None,
                has_dupe: false,
                title: Some("C".to_string()),
                url: Some("http://example.com/c".to_string()),
                keyword: None,
                tags: vec!["foo".to_string(), "bar".to_string()],
            }),
            1_552_183_116_885,
        ),
        added(folder("menu", "places", "", "menu", &["bookmarkCCCC"]), 0),
    ];
    let incoming = changeset(0, plain(records));
    let outgoing = store
        .apply_incoming(&incoming, &mut Engine::new("bookmarks"), now())
        .expect("Should apply incoming and stage outgoing records");
    assert_eq!(outgoing_ids(&outgoing), vec!["bookmarkAAAA", "bookmarkBBBB", "unfiled"]);
    let record_for_a = outgoing
        .changes
        .iter()
        .find(|r| r.id() == "bookmarkAAAA")
        .expect("Should upload A");
    match record_for_a {
        BookmarkItemRecord::Bookmark(b) => assert_eq!(b.tags, vec!["baz"]),
        other => panic!("Should upload tags for A, not {:?}", other),
    }

    assert_eq!(
        children_of(&store.db, ROOT),
        vec![
            seen(
                MENU,
                None,
                None,
                vec![seen("bookmarkCCCC", Some("C"), Some("http://example.com/c"), vec![])]
            ),
            seen(TOOLBAR, None, None, vec![]),
            seen(
                UNFILED,
                None,
                None,
                vec![
                    seen("bookmarkAAAA", Some("A"), Some("http://example.com/a"), vec![]),
                    seen("bookmarkBBBB", Some("B"), Some("http://example.com/b"), vec![]),
                ]
            ),
            seen(MOBILE, None, None, vec![]),
        ]
    );
    let c = store.db.bookmarks.iter().find(|b| b.guid == "bookmarkCCCC").unwrap();
    assert_eq!(c.date_added, 1_552_183_116_885);

    // We haven't finished the sync yet, so all local change counts for
    // items to upload should still be > 0.
    assert_eq!(counter_of(&store.db, "bookmarkAAAA"), 1);
    assert_eq!(counter_of(&store.db, UNFILED), 1);

    store
        .sync_finished(
            ServerTimestamp(0),
            &vec!["bookmarkAAAA".to_string(), "bookmarkBBBB".to_string(), "unfiled".to_string()],
            |_| 0,
        )
        .expect("Should push synced changes back to the store");

    assert_eq!(counter_of(&store.db, "bookmarkAAAA"), 0);
    assert_eq!(counter_of(&store.db, UNFILED), 0);

    let place_c = store.db.places.iter().find(|p| p.url == "http://example.com/c").unwrap().id;
    let mut tags_for_c: Vec<String> =
        store.db.tags.iter().filter(|t| t.place_id == place_c).map(|t| t.tag.clone()).collect();
    tags_for_c.sort();
    assert_eq!(tags_for_c, vec!["bar", "foo"]);
}

#[test]
fn test_keywords() {
    let mut store = new_store();
    let records = vec![
        added(folder("toolbar", "places", "", "toolbar", &["bookmarkAAAA"]), 0),
        added(
            BookmarkItemRecord::Bookmark(BookmarkRecord {
                record_id: "bookmarkAAAA".to_string(),
                parent_record_id: Some("toolbar".to_string()),
                parent_title: Some("toolbar".to_string()),
                date_added: None,
                has_dupe: false,
                title: Some("A".to_string()),
                url: Some("http://example.com/a".to_string()),
                keyword: Some("a".to_string()),
                tags: vec![],
            }),
            1_552_183_116_885,
        ),
    ];
    let incoming = changeset(0, plain(records));
    let outgoing = store
        .apply_incoming(&incoming, &mut Engine::new("bookmarks"), now())
        .expect("Should apply incoming records");
    let ids = outgoing_ids(&outgoing);
    assert_eq!(ids, vec!["menu", "mobile", "toolbar", "unfiled"]);

    store
        .sync_finished(ServerTimestamp(0), &ids, |_| 0)
        .expect("Should push synced changes back to the store");

    // Change the title as a user would.
    let a = store.db.bookmarks.iter_mut().find(|b| b.guid == "bookmarkAAAA").unwrap();
    a.title = Some("A (local)".to_string());
    a.sync_change_counter += 1;
    a.last_modified = NOW - 1;

    let outgoing = store
        .apply_incoming(&changeset(1000, vec![]), &mut Engine::new("bookmarks"), now())
        .expect("Should fetch outgoing records after making local changes");
    assert_eq!(outgoing.changes.len(), 1);
    assert_eq!(outgoing.changes[0].id(), "bookmarkAAAA");
    match &outgoing.changes[0] {
        BookmarkItemRecord::Bookmark(b) => {
            assert_eq!(b.keyword.as_deref(), Some("a"));
            assert_eq!(b.title.as_deref(), Some("A (local)"));
        }
        other => panic!("unexpected record {:?}", other),
    }
}

#[test]
fn test_wipe() {
    let mut store = new_store();
    let records = vec![
        added(folder("toolbar", "places", "", "toolbar", &["folderAAAAAA"]), 0),
        added(folder("folderAAAAAA", "toolbar", "toolbar", "A", &["bookmarkBBBB"]), 0),
        added(bookmark("bookmarkBBBB", "folderAAAAAA", "A", "A", "http://example.com/a"), 0),
        added(folder("menu", "places", "", "menu", &["folderCCCCCC"]), 0),
        added(folder("folderCCCCCC", "menu", "menu", "A", &["bookmarkDDDD", "folderEEEEEE"]), 0),
        added(bookmark("bookmarkDDDD", "folderCCCCCC", "C", "D", "http://example.com/d"), 0),
        added(folder("folderEEEEEE", "folderCCCCCC", "C", "E", &["bookmarkFFFF"]), 0),
        added(bookmark("bookmarkFFFF", "folderEEEEEE", "E", "F", "http://example.com/f"), 0),
    ];
    let incoming = changeset(0, plain(records));
    let outgoing = store
        .apply_incoming(&incoming, &mut Engine::new("bookmarks"), now())
        .expect("Should apply incoming records");
    let ids = outgoing_ids(&outgoing);
    assert_eq!(ids, vec!["menu", "mobile", "toolbar", "unfiled"]);

    store
        .sync_finished(ServerTimestamp(0), &ids, |_| 0)
        .expect("Should push synced changes back to the store");

    store.wipe(now());

    // Wiping the store should delete all items except for the roots.
    assert_eq!(
        children_of(&store.db, ROOT),
        vec![
            seen(MENU, None, None, vec![]),
            seen(TOOLBAR, None, None, vec![]),
            seen(UNFILED, None, None, vec![]),
            seen(MOBILE, None, None, vec![]),
        ]
    );

    // Now pretend that F changed remotely between the time we called `wipe`
    // and the next sync.
    let record_for_f = added(
        bookmark("bookmarkFFFF", "folderEEEEEE", "E", "F (remote)", "http://example.com/f-remote"),
        0,
    );
    let incoming = changeset(1000, vec![(record_for_f, Some(1000))]);
    let outgoing = store
        .apply_incoming(&incoming, &mut Engine::new("bookmarks"), now())
        .expect("Should apply F and stage tombstones for A-E");
    let (tombstones, records): (Vec<&BookmarkItemRecord>, Vec<&BookmarkItemRecord>) =
        outgoing.changes.iter().partition(|record| record.is_tombstone());
    let mut record_ids: Vec<String> = records.into_iter().map(|r| r.id().clone()).collect();
    record_ids.sort();
    assert_eq!(record_ids, vec!["bookmarkFFFF", "menu", "mobile", "toolbar", "unfiled"]);
    let mut tombstone_ids: Vec<String> = tombstones.into_iter().map(|r| r.id().clone()).collect();
    tombstone_ids.sort();
    assert_eq!(
        tombstone_ids,
        vec!["bookmarkBBBB", "bookmarkDDDD", "folderAAAAAA", "folderCCCCCC", "folderEEEEEE"]
    );

    // F should move to the closest surviving ancestor, which, in this case,
    // is the menu.
    assert_eq!(
        children_of(&store.db, ROOT),
        vec![
            seen(
                MENU,
                None,
                None,
                vec![seen("bookmarkFFFF", Some("F (remote)"), Some("http://example.com/f-remote"), vec![])]
            ),
            seen(TOOLBAR, None, None, vec![]),
            seen(UNFILED, None, None, vec![]),
            seen(MOBILE, None, None, vec![]),
        ]
    );
}

#[test]
fn test_reset() {
    let mut store = new_store();
    insert_local_tree(&mut store.db, MENU, vec![local_bookmark("bookmark2___", "2", "http://example.com/2")]);

    assert!(matches!(store.get_sync_assoc(), StoreSyncAssociation::Disconnected));

    let outgoing = store
        .apply_incoming(&changeset(1_000, vec![]), &mut Engine::new("bookmarks"), now())
        .expect("should apply");
    let synced_ids: Vec<String> = outgoing.changes.iter().map(|c| c.id().clone()).collect();
    assert_eq!(synced_ids.len(), 5, "should be 4 roots + 1 outgoing item");
    store.sync_finished(ServerTimestamp(2_000), &synced_ids, |_| 0).expect("should finish");

    // now reset
    store.reset(&StoreSyncAssociation::Connected(CollSyncIds {
        global: "globalAAAAAA".to_string(),
        coll: "collAAAAAAAA".to_string(),
    }));

    // do it all again - after the reset we should get the same results.
    let outgoing = store
        .apply_incoming(&changeset(1_000, vec![]), &mut Engine::new("bookmarks"), now())
        .expect("should apply");
    let synced_ids: Vec<String> = outgoing.changes.iter().map(|c| c.id().clone()).collect();
    assert_eq!(synced_ids.len(), 5, "should be 4 roots + 1 outgoing item");
    store.sync_finished(ServerTimestamp(2_000), &synced_ids, |_| 0).expect("should finish");
}

#[test]
fn test_dedupe_local_newer() {
    let mut store = new_store();
    let local_modified = NOW;
    let remote_modified = NOW - 5000;

    // Start with merged items.
    apply_incoming(
        &mut store,
        remote_modified,
        vec![
            (folder("menu", "places", "", "menu", &["bookmarkAAA5"]), Some(remote_modified)),
            (bookmark("bookmarkAAA5", "menu", "menu", "A", "http://example.com/a"), Some(remote_modified)),
        ],
    );

    // Add newer local dupes.
    insert_local_tree(
        &mut store.db,
        MENU,
        vec![
            at(local_bookmark("bookmarkAAA1", "A", "http://example.com/a"), local_modified),
            at(local_bookmark("bookmarkAAA2", "A", "http://example.com/a"), local_modified),
            at(local_bookmark("bookmarkAAA3", "A", "http://example.com/a"), local_modified),
        ],
    );

    // Add older remote dupes.
    apply_incoming(
        &mut store,
        local_modified,
        vec![
            (folder("menu", "places", "", "menu", &["bookmarkAAAA", "bookmarkAAA4", "bookmarkAAA5"]), None),
            (bookmark("bookmarkAAAA", "menu", "menu", "A", "http://example.com/a"), Some(remote_modified)),
            (bookmark("bookmarkAAA4", "menu", "menu", "A", "http://example.com/a"), Some(remote_modified)),
        ],
    );

    assert_eq!(
        children_of(&store.db, MENU),
        vec![
            seen("bookmarkAAAA", Some("A"), Some("http://example.com/a"), vec![]),
            seen("bookmarkAAA4", Some("A"), Some("http://example.com/a"), vec![]),
            seen("bookmarkAAA5", Some("A"), Some("http://example.com/a"), vec![]),
            seen("bookmarkAAA3", Some("A"), Some("http://example.com/a"), vec![]),
        ]
    );
}

#[test]
fn test_deduping_remote_newer() {
    let mut store = new_store();
    let local_modified = NOW - 5000;
    let remote_modified = local_modified;

    // Start with merged items.
    apply_incoming(
        &mut store,
        remote_modified,
        vec![
            (folder("menu", "places", "", "menu", &["folderAAAAAA"]), Some(remote_modified)),
            // Shouldn't dedupe to `folderA11111` because it's been applied.
            (folder("folderAAAAAA", "menu", "menu", "A", &["bookmarkGGGG"]), Some(remote_modified)),
            // Shouldn't dedupe to `bookmarkG111`.
            (bookmark("bookmarkGGGG", "folderAAAAAA", "A", "G", "http://example.com/g"), Some(remote_modified)),
        ],
    );

    // Add older local dupes.
    insert_local_tree(
        &mut store.db,
        "folderAAAAAA",
        vec![
            // Not a candidate for `bookmarkH111` because we didn't dupe `folderAAAAAA`.
            at(local_bookmark("bookmarkHHHH", "H", "http://example.com/h"), local_modified),
        ],
    );
    insert_local_tree(
        &mut store.db,
        MENU,
        vec![
            // Should dupe to `folderB11111`.
            at(
                local_folder(
                    "folderBBBBBB",
                    "B",
                    vec![
                        // Should dupe to `bookmarkC222`.
                        local_bookmark("bookmarkC111", "C", "http://example.com/c"),
                        // Should dupe to `separatorF11` because the positions are the same.
                        local_separator("separatorFFF"),
                    ],
                ),
                local_modified,
            ),
            // Shouldn't dupe to `separatorE11`, because the positions are different.
            at(local_separator("separatorEEE"), local_modified),
            // Shouldn't dupe to `bookmarkC222` because the parents are different.
            at(local_bookmark("bookmarkCCCC", "C", "http://example.com/c"), local_modified),
            // Should dupe to `queryD111111`.
            at(local_bookmark("queryDDDDDDD", "Most Visited", "place:maxResults=10&sort=8"), local_modified),
        ],
    );

    // Add newer remote items.
    let newer = Some(remote_modified + 5000);
    apply_incoming(
        &mut store,
        remote_modified,
        vec![
            (
                added(
                    folder(
                        "menu",
                        "places",
                        "",
                        "menu",
                        &["folderAAAAAA", "folderB11111", "folderA11111", "separatorE11", "queryD111111"],
                    ),
                    local_modified,
                ),
                newer,
            ),
            (
                added(folder("folderB11111", "menu", "menu", "B", &["bookmarkC222", "separatorF11"]), local_modified),
                newer,
            ),
            (
                added(bookmark("bookmarkC222", "folderB11111", "B", "C", "http://example.com/c"), local_modified),
                newer,
            ),
            (added(separator("separatorF11", "folderB11111", "B"), local_modified), newer),
            (
                added(folder("folderA11111", "menu", "menu", "A", &["bookmarkG111"]), local_modified),
                newer,
            ),
            (
                added(bookmark("bookmarkG111", "folderA11111", "A", "G", "http://example.com/g"), local_modified),
                newer,
            ),
            (added(separator("separatorE11", "folderB11111", "B"), local_modified), newer),
            (
                added(
                    query("queryD111111", "menu", "menu", "Most Visited", "place:maxResults=10&sort=8"),
                    local_modified,
                ),
                newer,
            ),
        ],
    );

    assert_eq!(
        children_of(&store.db, MENU),
        vec![
            seen(
                "folderAAAAAA",
                Some("A"),
                None,
                vec![
                    seen("bookmarkGGGG", Some("G"), Some("http://example.com/g"), vec![]),
                    seen("bookmarkHHHH", Some("H"), Some("http://example.com/h"), vec![]),
                ]
            ),
            seen(
                "folderB11111",
                Some("B"),
                None,
                vec![
                    seen("bookmarkC222", Some("C"), Some("http://example.com/c"), vec![]),
                    seen("separatorF11", None, None, vec![]),
                ]
            ),
            seen(
                "folderA11111",
                Some("A"),
                None,
                vec![seen("bookmarkG111", Some("G"), Some("http://example.com/g"), vec![])]
            ),
            seen("separatorE11", None, None, vec![]),
            seen("queryD111111", Some("Most Visited"), Some("place:maxResults=10&sort=8"), vec![]),
            seen("separatorEEE", None, None, vec![]),
            seen("bookmarkCCCC", Some("C"), Some("http://example.com/c"), vec![]),
        ]
    );
}

#[test]
fn test_fetch_remote_contents_with_invalid_item() {
    let records = vec![
        bookmark("bookmarkAAAA", "unfiled", "unfiled", "A", "!@#$%^&"),
        bookmark("bookmarkBBBB", "unfiled", "unfiled", "B", "http://example.com/ok"),
        added(folder("unfiled", "places", "", "unfiled", &["bookmarkAAAA", "bookmarkBBBB"]), 0),
    ];
    let mut store = new_store();
    let incoming = changeset(0, plain(records));
    store
        .stage_incoming(&incoming, &mut bookmark_sync::telemetry::EngineIncoming::new())
        .expect("Should apply incoming and stage outgoing records");

    let invalid = store.db.synced.iter().find(|v| v.guid == "bookmarkAAAA").expect("staged");
    assert_eq!(invalid.validity, SyncedBookmarkValidity::Replace);

    let merger = Merger::new(ServerTimestamp(0), now());
    let contents = merger.fetch_new_remote_contents(&store).expect("should fetch");
    let mut guids: Vec<&str> = contents.iter().map(|c| c.guid.as_str()).collect();
    guids.sort();
    assert_eq!(guids, vec!["bookmarkBBBB"]);
}

#[test]
fn interrupted_store_changes_nothing() {
    let mut store = new_store();
    store.interruptee.interrupt();
    let incoming = changeset(0, plain(vec![bookmark("bookmarkAAAA", "unfiled", "", "A", "http://example.com/a")]));
    let result = store.apply_incoming(&incoming, &mut Engine::new("bookmarks"), now());
    assert!(matches!(result, Err(ErrorKind::Interrupted)));
    assert_eq!(store.db.synced.len(), 5);
    assert_eq!(store.db.meta.last_sync, None);
}
