use bookmark_sync::db::PlacesDb;
use bookmark_sync::record::{
    BookmarkItemRecord, BookmarkRecord, FolderRecord, IncomingChange, IncomingChangeset,
    LivemarkRecord, QueryRecord, SeparatorRecord,
};
use bookmark_sync::rows::{LocalItem, Place, Tombstone};
use bookmark_sync::soundness::local_tree_is_sound;
use bookmark_sync::store::{BookmarksStore, SqlInterruptScope};
use bookmark_sync::telemetry::Engine;
use bookmark_sync::types::{BookmarkType, ConnectionType, ServerTimestamp, SyncStatus, Timestamp};
use std::collections::BTreeMap;

/// The records that the server holds, each with the time at which it came.
struct Server {
    records: BTreeMap<String, (BookmarkItemRecord, i64)>,
}

fn copy_of(record: &BookmarkItemRecord) -> BookmarkItemRecord {
    match record {
        BookmarkItemRecord::Tombstone { record_id } => {
            BookmarkItemRecord::Tombstone { record_id: record_id.clone() }
        }
        BookmarkItemRecord::Bookmark(b) => BookmarkItemRecord::Bookmark(BookmarkRecord {
            record_id: b.record_id.clone(),
            parent_record_id: b.parent_record_id.clone(),
            parent_title: b.parent_title.clone(),
            date_added: b.date_added,
            has_dupe: b.has_dupe,
            title: b.title.clone(),
            url: b.url.clone(),
            keyword: b.keyword.clone(),
            tags: b.tags.clone(),
        }),
        BookmarkItemRecord::Query(q) => BookmarkItemRecord::Query(QueryRecord {
            record_id: q.record_id.clone(),
            parent_record_id: q.parent_record_id.clone(),
            parent_title: q.parent_title.clone(),
            date_added: q.date_added,
            has_dupe: q.has_dupe,
            title: q.title.clone(),
            url: q.url.clone(),
            tag_folder_name: q.tag_folder_name.clone(),
        }),
        BookmarkItemRecord::Folder(f) => BookmarkItemRecord::Folder(FolderRecord {
            record_id: f.record_id.clone(),
            parent_record_id: f.parent_record_id.clone(),
            parent_title: f.parent_title.clone(),
            date_added: f.date_added,
            has_dupe: f.has_dupe,
            title: f.title.clone(),
            children: f.children.clone(),
        }),
        BookmarkItemRecord::Livemark(l) => BookmarkItemRecord::Livemark(LivemarkRecord {
            record_id: l.record_id.clone(),
            parent_record_id: l.parent_record_id.clone(),
            parent_title: l.parent_title.clone(),
            date_added: l.date_added,
            has_dupe: l.has_dupe,
            title: l.title.clone(),
        }),
        BookmarkItemRecord::Separator(s) => BookmarkItemRecord::Separator(SeparatorRecord {
            record_id: s.record_id.clone(),
            parent_record_id: s.parent_record_id.clone(),
            parent_title: s.parent_title.clone(),
            date_added: s.date_added,
            has_dupe: s.has_dupe,
            position: s.position,
        }),
        BookmarkItemRecord::Unknown { record_id } => {
            BookmarkItemRecord::Unknown { record_id: record_id.clone() }
        }
    }
}

fn new_client() -> BookmarksStore {
    BookmarksStore::new(PlacesDb::new(ConnectionType::Sync), SqlInterruptScope::new())
}

/// One sync of a client with the server, at the time `clock`.
fn sync(client: &mut BookmarksStore, server: &mut Server, clock: &mut i64) {
    *clock += 1_000;
    let since = client.get_collection_request().newer_than.map(|t| t.0).unwrap_or(0);
    let mut incoming = IncomingChangeset::new("bookmarks".to_string(), ServerTimestamp(*clock));
    for (record, modified) in server.records.values() {
        if *modified > since {
            incoming.changes.push(IncomingChange {
                record: copy_of(record),
                server_modified: ServerTimestamp(*modified),
            });
        }
    }
    let outgoing = client
        .apply_incoming(&incoming, &mut Engine::new("bookmarks"), Timestamp(*clock as u64))
        .expect("should apply");
    assert!(local_tree_is_sound(&client.db.bookmarks));
    assert!(client.db.has_unique_keys());
    *clock += 1_000;
    let mut ids = Vec::new();
    for record in outgoing.changes.iter() {
        ids.push(record.id().clone());
        server.records.insert(record.id().clone(), (copy_of(record), *clock));
    }
    client.sync_finished(ServerTimestamp(*clock), &ids, |_| 1).expect("should finish");
    assert!(client.db.has_unique_keys());
}

fn index_of(db: &PlacesDb, guid: &str) -> usize {
    db.bookmarks.iter().position(|b| b.guid == guid).expect("item exists")
}

fn touch(db: &mut PlacesDb, id: i64, clock: i64) {
    let i = db.bookmarks.iter().position(|b| b.id == id).expect("item exists");
    db.bookmarks[i].sync_change_counter += 1;
    db.bookmarks[i].last_modified = clock;
}

fn renumber(db: &mut PlacesDb, parent: i64) {
    let mut children: Vec<usize> =
        (0..db.bookmarks.len()).filter(|&i| db.bookmarks[i].parent == Some(parent)).collect();
    children.sort_by_key(|&i| db.bookmarks[i].position);
    for (position, i) in children.into_iter().enumerate() {
        db.bookmarks[i].position = position as i64;
    }
}

fn add(db: &mut PlacesDb, parent_guid: &str, guid: &str, typ: BookmarkType, title: &str, clock: i64) {
    let parent = db.bookmarks[index_of(db, parent_guid)].id;
    let place_id = if typ == BookmarkType::Bookmark {
        let url = format!("http://example.com/{}", title);
        let id = match db.places.iter().find(|p| p.url == url) {
            Some(place) => place.id,
            None => {
                let id = db.places.iter().map(|p| p.id).max().unwrap_or(0) + 1;
                db.places.push(Place { id, url, frecency: -1 });
                id
            }
        };
        Some(id)
    } else {
        None
    };
    let position = db.bookmarks.iter().filter(|b| b.parent == Some(parent)).count() as i64;
    let id = db.bookmarks.iter().map(|b| b.id).max().unwrap_or(0) + 1;
    db.bookmarks.push(LocalItem {
        id,
        guid: guid.to_string(),
        parent: Some(parent),
        position,
        typ,
        title: if typ == BookmarkType::Separator { None } else { Some(title.to_string()) },
        place_id,
        date_added: clock,
        last_modified: clock,
        sync_change_counter: 1,
        sync_status: SyncStatus::New,
    });
    touch(db, parent, clock);
}

fn rename(db: &mut PlacesDb, guid: &str, title: &str, clock: i64) {
    let i = index_of(db, guid);
    db.bookmarks[i].title = Some(title.to_string());
    let id = db.bookmarks[i].id;
    touch(db, id, clock);
}

fn is_below(db: &PlacesDb, id: i64, ancestor: i64) -> bool {
    let mut cur = Some(id);
    while let Some(c) = cur {
        if c == ancestor {
            return true;
        }
        cur = db.bookmarks.iter().find(|b| b.id == c).and_then(|b| b.parent);
    }
    false
}

fn move_to(db: &mut PlacesDb, guid: &str, parent_guid: &str, clock: i64) {
    let i = index_of(db, guid);
    let id = db.bookmarks[i].id;
    let old_parent = db.bookmarks[i].parent.expect("no root moves");
    let new_parent = db.bookmarks[index_of(db, parent_guid)].id;
    if is_below(db, new_parent, id) {
        return;
    }
    let position = db.bookmarks.iter().filter(|b| b.parent == Some(new_parent)).count() as i64;
    db.bookmarks[i].parent = Some(new_parent);
    db.bookmarks[i].position = position;
    touch(db, id, clock);
    touch(db, old_parent, clock);
    if new_parent != old_parent {
        touch(db, new_parent, clock);
    }
    renumber(db, old_parent);
    renumber(db, new_parent);
}

fn delete(db: &mut PlacesDb, guid: &str, clock: i64) {
    let i = index_of(db, guid);
    let id = db.bookmarks[i].id;
    let parent = db.bookmarks[i].parent.expect("no root is deleted");
    let doomed: Vec<i64> =
        db.bookmarks.iter().filter(|b| is_below(db, b.id, id)).map(|b| b.id).collect();
    for gone in doomed {
        let at = db.bookmarks.iter().position(|b| b.id == gone).unwrap();
        let item = db.bookmarks.remove(at);
        if item.sync_status == SyncStatus::Normal {
            db.deleted.push(Tombstone { guid: item.guid, date_removed: clock });
        }
    }
    touch(db, parent, clock);
    renumber(db, parent);
}

/// The local tree as a list of (guid, parent guid, position, title, URL).
fn shape(db: &PlacesDb) -> Vec<(String, String, i64, Option<String>, Option<String>)> {
    let mut rows: Vec<(String, String, i64, Option<String>, Option<String>)> = db
        .bookmarks
        .iter()
        .filter(|b| b.parent.is_some())
        .map(|b| {
            let parent = db.bookmarks.iter().find(|p| Some(p.id) == b.parent).expect("parent");
            let url = b.place_id.and_then(|id| db.places.iter().find(|p| p.id == id));
            let title = if b.parent == Some(1) { None } else { b.title.clone() };
            (b.guid.clone(), parent.guid.clone(), b.position, title, url.map(|p| p.url.clone()))
        })
        .collect();
    rows.sort();
    rows
}

fn settle(a: &mut BookmarksStore, b: &mut BookmarksStore, server: &mut Server, clock: &mut i64) {
    for _ in 0..4 {
        sync(a, server, clock);
        sync(b, server, clock);
    }
}

#[test]
fn two_clients_converge() {
    let mut server = Server { records: BTreeMap::new() };
    let mut clock: i64 = 1_000_000;
    let mut a = new_client();
    let mut b = new_client();

    add(&mut a.db, "menu________", "folderAAAAAA", BookmarkType::Folder, "A", clock);
    add(&mut a.db, "folderAAAAAA", "bookmarkBBBB", BookmarkType::Bookmark, "b", clock);
    add(&mut a.db, "toolbar_____", "bookmarkCCCC", BookmarkType::Bookmark, "c", clock);
    add(&mut a.db, "menu________", "separatorDDD", BookmarkType::Separator, "", clock);
    settle(&mut a, &mut b, &mut server, &mut clock);
    assert_eq!(shape(&a.db), shape(&b.db));
    assert_eq!(shape(&b.db).len(), 4 + 4);

    // The other client renames, moves and adds.
    clock += 10;
    rename(&mut b.db, "bookmarkBBBB", "b2", clock);
    move_to(&mut b.db, "bookmarkCCCC", "folderAAAAAA", clock);
    add(&mut b.db, "unfiled_____", "bookmarkEEEE", BookmarkType::Bookmark, "e", clock);
    settle(&mut b, &mut a, &mut server, &mut clock);
    assert_eq!(shape(&a.db), shape(&b.db));
    let moved = shape(&a.db).into_iter().find(|row| row.0 == "bookmarkCCCC").unwrap();
    assert_eq!((moved.1.as_str(), moved.2), ("folderAAAAAA", 1));
    let renamed = shape(&a.db).into_iter().find(|row| row.0 == "bookmarkBBBB").unwrap();
    assert_eq!(renamed.3.as_deref(), Some("b2"));

    // A folder is deleted on one side.
    clock += 10;
    delete(&mut a.db, "folderAAAAAA", clock);
    settle(&mut a, &mut b, &mut server, &mut clock);
    assert_eq!(shape(&a.db), shape(&b.db));
    assert!(shape(&b.db).iter().all(|row| row.0 != "folderAAAAAA" && row.0 != "bookmarkBBBB"));
    assert!(a.db.deleted.is_empty() && b.db.deleted.is_empty());
}

/// Random edits on three clients, with a sync now and then; in the end all
/// clients sync until nothing moves, and hold the same tree.
fn converge_after_many_edits(mut seed: u64) {
    let mut server = Server { records: BTreeMap::new() };
    let mut clock: i64 = 1_000_000;
    let mut clients = vec![new_client(), new_client(), new_client()];
    let mut next = move |bound: usize| -> usize {
        seed ^= seed << 13;
        seed ^= seed >> 7;
        seed ^= seed << 17;
        (seed % bound as u64) as usize
    };
    let mut made = 0usize;
    for round in 0..40 {
        let who = next(3);
        for _ in 0..(1 + next(3)) {
            clock += 7;
            let db = &mut clients[who].db;
            let folders: Vec<String> = db
                .bookmarks
                .iter()
                .filter(|b| b.typ == BookmarkType::Folder && b.parent.is_some())
                .map(|b| b.guid.clone())
                .collect();
            let items: Vec<String> = db
                .bookmarks
                .iter()
                .filter(|b| b.guid.len() == 12 && !b.guid.ends_with('_'))
                .map(|b| b.guid.clone())
                .collect();
            match next(5) {
                0 | 1 => {
                    made += 1;
                    let parent = folders[next(folders.len())].clone();
                    let kind = next(4);
                    let (prefix, typ) = match kind {
                        0 => ("fldr", BookmarkType::Folder),
                        1 => ("sepa", BookmarkType::Separator),
                        _ => ("bmrk", BookmarkType::Bookmark),
                    };
                    let guid = format!("{}{:08}", prefix, made);
                    add(db, &parent, &guid, typ, &format!("t{}", made), clock);
                }
                2 if !items.is_empty() => {
                    let guid = items[next(items.len())].clone();
                    if db.bookmarks[index_of(db, &guid)].typ != BookmarkType::Separator {
                        rename(db, &guid, &format!("r{}", round), clock);
                    }
                }
                3 if !items.is_empty() => {
                    let guid = items[next(items.len())].clone();
                    let parent = folders[next(folders.len())].clone();
                    if guid != parent {
                        move_to(db, &guid, &parent, clock);
                    }
                }
                4 if !items.is_empty() => {
                    let guid = items[next(items.len())].clone();
                    delete(db, &guid, clock);
                }
                _ => {}
            }
        }
        if next(2) == 0 {
            sync(&mut clients[who], &mut server, &mut clock);
        }
    }
    for _ in 0..6 {
        for client in clients.iter_mut() {
            sync(client, &mut server, &mut clock);
        }
    }
    let first = shape(&clients[0].db);
    assert!(!first.is_empty());
    for client in clients.iter() {
        assert_eq!(shape(&client.db), first, "seed {}", seed);
        assert!(client.db.deleted.is_empty());
        assert!(client.db.items_to_upload.is_empty());
    }
}

#[test]
fn clients_converge_after_many_edits() {
    for seed in 1..=10u64 {
        converge_after_many_edits(seed.wrapping_mul(0x9e37_79b9_7f4a_7c15) | 1);
    }
}

#[test]
fn clients_converge_after_many_more_edits() {
    for seed in 11..=20u64 {
        converge_after_many_edits(seed.wrapping_mul(0x9e37_79b9_7f4a_7c15) | 1);
    }
}
