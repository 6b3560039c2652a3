//! The keys of the tables: no two local items have the same key, no two
//! rows of the mirror the same guid, no two tombstones the same guid, no two
//! places the same key or the same URL, and no place is twice in the stale
//! queue. Every operation of the store keeps it so.

use vstd::prelude::*;
use crate::applier::{
    local_side, max_local_id, placed_item, placed_items, remote_side, with_merged_flag, with_stale,
};
use crate::db::{
    place_has_url, place_index, stale_has_place, synced_has_guid, synced_index,
    tombstone_has_guid, tombstone_index, DbModel, PlacesDb,
};
use crate::finalize::{entombs_other, settled_items, with_synced_row};
use crate::guid::BookmarkRootGuid;
use crate::incoming::{max_place_id, with_place, IncomingItemModel};
use crate::record::RecordModel;
use crate::rows::{
    LocalItem, LocalItemModel, MergedRowModel, Place, PlaceModel, RemovalRowModel, StaleFrecency,
    StaleFrecencyModel, SyncedItem, SyncedItemModel, Tombstone, TombstoneModel, UploadItemModel,
};
use crate::seqs::lemma_first_index;

verus! {

/// Whether no two elements of `s` have the same key.
pub open spec fn distinct_by<T, K>(s: Seq<T>, key: spec_fn(T) -> K) -> bool {
    forall|i: int, j: int| 0 <= i < j < s.len() ==> key(#[trigger] s[i]) != key(#[trigger] s[j])
}

/// The key of a local item.
pub open spec fn local_id() -> spec_fn(LocalItemModel) -> i64 {
    |b: LocalItemModel| b.id
}

/// The guid of a row of the mirror.
pub open spec fn synced_guid() -> spec_fn(SyncedItemModel) -> Seq<char> {
    |v: SyncedItemModel| v.guid
}

/// The guid of a tombstone.
pub open spec fn tombstone_guid() -> spec_fn(TombstoneModel) -> Seq<char> {
    |d: TombstoneModel| d.guid
}

/// The key of a place.
pub open spec fn place_id() -> spec_fn(PlaceModel) -> i64 {
    |p: PlaceModel| p.id
}

/// The URL of a place.
pub open spec fn place_url() -> spec_fn(PlaceModel) -> Seq<char> {
    |p: PlaceModel| p.url
}

/// The place of an entry of the stale queue.
pub open spec fn stale_place() -> spec_fn(StaleFrecencyModel) -> i64 {
    |s: StaleFrecencyModel| s.place_id
}

impl DbModel {
    /// Whether the keys of the tables are unique.
    pub open spec fn has_unique_keys(self) -> bool {
        &&& distinct_by(self.bookmarks, local_id())
        &&& distinct_by(self.synced, synced_guid())
        &&& distinct_by(self.deleted, tombstone_guid())
        &&& distinct_by(self.places, place_id())
        &&& distinct_by(self.places, place_url())
        &&& distinct_by(self.stale_frecencies, stale_place())
    }
}

/// Whether no two local items have the same key.
fn distinct_local_ids(items: &Vec<LocalItem>) -> (r: bool)
    ensures
        r == distinct_by(items.deep_view(), local_id()),
{
    let ghost all = items.deep_view();
    let ghost key = local_id();
    let mut b: usize = 0;
    while b < items.len()
        invariant
            b <= items.len(),
            all == items.deep_view(),
            key == local_id(),
            forall|i: int, j: int| 0 <= i < j < b ==> key(#[trigger] all[i]) != key(#[trigger] all[j]),
        decreases items.len() - b,
    {
        let mut a: usize = 0;
        while a < b
            invariant
                a <= b,
                b < items.len(),
                all == items.deep_view(),
                key == local_id(),
                forall|i: int| 0 <= i < a ==> key(#[trigger] all[i]) != key(all[b as int]),
            decreases b - a,
        {
            if items[a].id == items[b].id {
                assert(key(all[a as int]) == key(all[b as int]));
                return false;
            }
            a += 1;
        }
        b += 1;
    }
    true
}

/// Whether no two rows of the mirror have the same guid.
fn distinct_synced_guids(items: &Vec<SyncedItem>) -> (r: bool)
    ensures
        r == distinct_by(items.deep_view(), synced_guid()),
{
    let ghost all = items.deep_view();
    let ghost key = synced_guid();
    let mut b: usize = 0;
    while b < items.len()
        invariant
            b <= items.len(),
            all == items.deep_view(),
            key == synced_guid(),
            forall|i: int, j: int| 0 <= i < j < b ==> key(#[trigger] all[i]) != key(#[trigger] all[j]),
        decreases items.len() - b,
    {
        let mut a: usize = 0;
        while a < b
            invariant
                a <= b,
                b < items.len(),
                all == items.deep_view(),
                key == synced_guid(),
                forall|i: int| 0 <= i < a ==> key(#[trigger] all[i]) != key(all[b as int]),
            decreases b - a,
        {
            if items[a].guid == items[b].guid {
                assert(key(all[a as int]) == key(all[b as int]));
                return false;
            }
            a += 1;
        }
        b += 1;
    }
    true
}

/// Whether no two tombstones have the same guid.
fn distinct_tombstone_guids(items: &Vec<Tombstone>) -> (r: bool)
    ensures
        r == distinct_by(items.deep_view(), tombstone_guid()),
{
    let ghost all = items.deep_view();
    let ghost key = tombstone_guid();
    let mut b: usize = 0;
    while b < items.len()
        invariant
            b <= items.len(),
            all == items.deep_view(),
            key == tombstone_guid(),
            forall|i: int, j: int| 0 <= i < j < b ==> key(#[trigger] all[i]) != key(#[trigger] all[j]),
        decreases items.len() - b,
    {
        let mut a: usize = 0;
        while a < b
            invariant
                a <= b,
                b < items.len(),
                all == items.deep_view(),
                key == tombstone_guid(),
                forall|i: int| 0 <= i < a ==> key(#[trigger] all[i]) != key(all[b as int]),
            decreases b - a,
        {
            if items[a].guid == items[b].guid {
                assert(key(all[a as int]) == key(all[b as int]));
                return false;
            }
            a += 1;
        }
        b += 1;
    }
    true
}

/// Whether no two places have the same key.
fn distinct_place_ids(items: &Vec<Place>) -> (r: bool)
    ensures
        r == distinct_by(items.deep_view(), place_id()),
{
    let ghost all = items.deep_view();
    let ghost key = place_id();
    let mut b: usize = 0;
    while b < items.len()
        invariant
            b <= items.len(),
            all == items.deep_view(),
            key == place_id(),
            forall|i: int, j: int| 0 <= i < j < b ==> key(#[trigger] all[i]) != key(#[trigger] all[j]),
        decreases items.len() - b,
    {
        let mut a: usize = 0;
        while a < b
            invariant
                a <= b,
                b < items.len(),
                all == items.deep_view(),
                key == place_id(),
                forall|i: int| 0 <= i < a ==> key(#[trigger] all[i]) != key(all[b as int]),
            decreases b - a,
        {
            if items[a].id == items[b].id {
                assert(key(all[a as int]) == key(all[b as int]));
                return false;
            }
            a += 1;
        }
        b += 1;
    }
    true
}

/// Whether no two places have the same URL.
fn distinct_place_urls(items: &Vec<Place>) -> (r: bool)
    ensures
        r == distinct_by(items.deep_view(), place_url()),
{
    let ghost all = items.deep_view();
    let ghost key = place_url();
    let mut b: usize = 0;
    while b < items.len()
        invariant
            b <= items.len(),
            all == items.deep_view(),
            key == place_url(),
            forall|i: int, j: int| 0 <= i < j < b ==> key(#[trigger] all[i]) != key(#[trigger] all[j]),
        decreases items.len() - b,
    {
        let mut a: usize = 0;
        while a < b
            invariant
                a <= b,
                b < items.len(),
                all == items.deep_view(),
                key == place_url(),
                forall|i: int| 0 <= i < a ==> key(#[trigger] all[i]) != key(all[b as int]),
            decreases b - a,
        {
            if items[a].url == items[b].url {
                assert(key(all[a as int]) == key(all[b as int]));
                return false;
            }
            a += 1;
        }
        b += 1;
    }
    true
}

/// Whether no place is twice in the stale queue.
fn distinct_stale_places(items: &Vec<StaleFrecency>) -> (r: bool)
    ensures
        r == distinct_by(items.deep_view(), stale_place()),
{
    let ghost all = items.deep_view();
    let ghost key = stale_place();
    let mut b: usize = 0;
    while b < items.len()
        invariant
            b <= items.len(),
            all == items.deep_view(),
            key == stale_place(),
            forall|i: int, j: int| 0 <= i < j < b ==> key(#[trigger] all[i]) != key(#[trigger] all[j]),
        decreases items.len() - b,
    {
        let mut a: usize = 0;
        while a < b
            invariant
                a <= b,
                b < items.len(),
                all == items.deep_view(),
                key == stale_place(),
                forall|i: int| 0 <= i < a ==> key(#[trigger] all[i]) != key(all[b as int]),
            decreases b - a,
        {
            if items[a].place_id == items[b].place_id {
                assert(key(all[a as int]) == key(all[b as int]));
                return false;
            }
            a += 1;
        }
        b += 1;
    }
    true
}

impl PlacesDb {
    /// Whether the keys of the tables are unique. Tables that come from
    /// elsewhere can be held to it before a store is made of them.
    pub fn has_unique_keys(&self) -> (r: bool)
        ensures
            r == self@.has_unique_keys(),
    {
        distinct_local_ids(&self.bookmarks) && distinct_synced_guids(&self.synced)
            && distinct_tombstone_guids(&self.deleted) && distinct_place_ids(&self.places)
            && distinct_place_urls(&self.places) && distinct_stale_places(&self.stale_frecencies)
    }
}

/// A new element whose key no element has keeps the keys distinct.
pub proof fn lemma_push_distinct<T, K>(s: Seq<T>, key: spec_fn(T) -> K, x: T)
    requires
        distinct_by(s, key),
        forall|i: int| 0 <= i < s.len() ==> key(#[trigger] s[i]) != key(x),
    ensures
        distinct_by(s.push(x), key),
{
    let t = s.push(x);
    assert forall|i: int, j: int| 0 <= i < j < t.len() implies key(#[trigger] t[i]) != key(
        #[trigger] t[j],
    ) by {
        if j < s.len() {
            assert(key(s[i]) != key(s[j]));
        } else {
            assert(key(s[i]) != key(x));
        }
    }
}

/// An element in the place of one with the same key keeps the keys distinct.
pub proof fn lemma_update_distinct<T, K>(s: Seq<T>, key: spec_fn(T) -> K, i: int, x: T)
    requires
        distinct_by(s, key),
        0 <= i < s.len(),
        key(x) == key(s[i]),
    ensures
        distinct_by(s.update(i, x), key),
{
    let t = s.update(i, x);
    assert forall|a: int, b: int| 0 <= a < b < t.len() implies key(#[trigger] t[a]) != key(
        #[trigger] t[b],
    ) by {
        assert(key(s[a]) != key(s[b]));
    }
}

/// Taking an element out keeps the keys distinct.
pub proof fn lemma_remove_distinct<T, K>(s: Seq<T>, key: spec_fn(T) -> K, i: int)
    requires
        distinct_by(s, key),
        0 <= i < s.len(),
    ensures
        distinct_by(s.remove(i), key),
{
    let t = s.remove(i);
    assert forall|a: int, b: int| 0 <= a < b < t.len() implies key(#[trigger] t[a]) != key(
        #[trigger] t[b],
    ) by {
        let a0 = if a < i {
            a
        } else {
            a + 1
        };
        let b0 = if b < i {
            b
        } else {
            b + 1
        };
        assert(key(s[a0]) != key(s[b0]));
    }
}

/// Taking elements out keeps the keys distinct.
pub proof fn lemma_filter_distinct<T, K>(s: Seq<T>, key: spec_fn(T) -> K, p: spec_fn(T) -> bool)
    requires
        distinct_by(s, key),
    ensures
        distinct_by(s.filter(p), key),
    decreases s.len(),
{
    reveal(Seq::filter);
    if s.len() > 0 {
        let front = s.drop_last();
        assert forall|i: int, j: int| 0 <= i < j < front.len() implies key(#[trigger] front[i])
            != key(#[trigger] front[j]) by {
            assert(key(s[i]) != key(s[j]));
        }
        lemma_filter_distinct(front, key, p);
        if p(s.last()) {
            let kept = front.filter(p);
            assert forall|i: int| 0 <= i < kept.len() implies key(#[trigger] kept[i]) != key(
                s.last(),
            ) by {
                assert(kept.contains(kept[i]));
                front.lemma_filter_contains_rev(p, kept[i]);
                let k = choose|k: int| 0 <= k < front.len() && front[k] == kept[i];
                assert(key(s[k]) != key(s[s.len() - 1]));
            }
            lemma_push_distinct(kept, key, s.last());
        }
    }
}

/// Changing the elements without changing their keys keeps the keys
/// distinct.
pub proof fn lemma_map_distinct<T, K>(s: Seq<T>, key: spec_fn(T) -> K, f: spec_fn(T) -> T)
    requires
        distinct_by(s, key),
        forall|x: T| key(#[trigger] f(x)) == key(x),
    ensures
        distinct_by(s.map_values(f), key),
{
    let t = s.map_values(f);
    assert forall|a: int, b: int| 0 <= a < b < t.len() implies key(#[trigger] t[a]) != key(
        #[trigger] t[b],
    ) by {
        assert(key(s[a]) != key(s[b]));
    }
}

/// The largest key is no smaller than any key.
pub proof fn lemma_max_local_id(items: Seq<LocalItemModel>, i: int)
    requires
        0 <= i < items.len(),
    ensures
        items[i].id <= max_local_id(items),
    decreases items.len(),
{
    if i < items.len() - 1 {
        lemma_max_local_id(items.drop_last(), i);
    }
}

/// The largest key is no smaller than any key.
pub proof fn lemma_max_place_id(places: Seq<PlaceModel>, i: int)
    requires
        0 <= i < places.len(),
    ensures
        places[i].id <= max_place_id(places),
    decreases places.len(),
{
    if i < places.len() - 1 {
        lemma_max_place_id(places.drop_last(), i);
    }
}

/// The mirror has one row per guid after a row was put into it.
pub proof fn lemma_with_synced_row(synced: Seq<SyncedItemModel>, row: SyncedItemModel)
    requires
        distinct_by(synced, synced_guid()),
    ensures
        distinct_by(with_synced_row(synced, row), synced_guid()),
{
    lemma_first_index(synced, synced_has_guid(row.guid));
    match synced_index(synced, row.guid) {
        Some(j) => lemma_update_distinct(synced, synced_guid(), j, row),
        None => lemma_push_distinct(synced, synced_guid(), row),
    }
}

/// The mirror has one row per guid after a row was flagged as merged.
pub proof fn lemma_with_merged_flag(synced: Seq<SyncedItemModel>, i: Option<int>)
    requires
        distinct_by(synced, synced_guid()),
        i matches Some(j) ==> 0 <= j < synced.len(),
    ensures
        distinct_by(with_merged_flag(synced, i), synced_guid()),
{
    match i {
        Some(j) => lemma_update_distinct(
            synced,
            synced_guid(),
            j,
            SyncedItemModel { needs_merge: false, ..synced[j] },
        ),
        None => {},
    }
}

/// Every URL has one place, and every place its own key, after a place was
/// added for a URL.
pub proof fn lemma_with_place(places: Seq<PlaceModel>, href: Seq<char>)
    requires
        distinct_by(places, place_id()),
        distinct_by(places, place_url()),
        max_place_id(places) < i64::MAX,
    ensures
        distinct_by(with_place(places, href), place_id()),
        distinct_by(with_place(places, href), place_url()),
{
    lemma_first_index(places, place_has_url(href));
    if place_index(places, href) is None {
        let p = with_place(places, href).last();
        assert forall|i: int| 0 <= i < places.len() implies place_id()(#[trigger] places[i])
            != place_id()(p) by {
            lemma_max_place_id(places, i);
        }
        lemma_push_distinct(places, place_id(), p);
        lemma_push_distinct(places, place_url(), p);
    }
}

/// No place is twice in the stale queue after a place was queued.
pub proof fn lemma_with_stale(
    stale: Seq<StaleFrecencyModel>,
    places: Seq<PlaceModel>,
    id: Option<i64>,
    now: i64,
)
    requires
        distinct_by(stale, stale_place()),
    ensures
        distinct_by(with_stale(stale, places, id, now), stale_place()),
{
    match id {
        Some(id) => {
            lemma_first_index(stale, stale_has_place(id));
            if with_stale(stale, places, Some(id), now) != stale {
                lemma_push_distinct(
                    stale,
                    stale_place(),
                    StaleFrecencyModel { place_id: id, stale_at: now },
                );
            }
        },
        None => {},
    }
}

/// The keys are unique after the mirror was given the row of a root.
pub proof fn lemma_with_synced_root(db: DbModel, root: BookmarkRootGuid)
    requires
        db.has_unique_keys(),
    ensures
        db.with_synced_root(root).has_unique_keys(),
{
    lemma_first_index(db.synced, synced_has_guid(root.guid()));
    if synced_index(db.synced, root.guid()) is None {
        lemma_push_distinct(db.synced, synced_guid(), crate::roots::synced_root(root));
    }
}

/// The keys are unique after the mirror was given the rows of the roots.
pub proof fn lemma_with_synced_roots(db: DbModel)
    requires
        db.has_unique_keys(),
    ensures
        db.with_synced_roots().has_unique_keys(),
{
    let d1 = db.with_synced_root(BookmarkRootGuid::Root);
    lemma_with_synced_root(db, BookmarkRootGuid::Root);
    let d2 = d1.with_synced_root(BookmarkRootGuid::Menu);
    lemma_with_synced_root(d1, BookmarkRootGuid::Menu);
    let d3 = d2.with_synced_root(BookmarkRootGuid::Toolbar);
    lemma_with_synced_root(d2, BookmarkRootGuid::Toolbar);
    let d4 = d3.with_synced_root(BookmarkRootGuid::Unfiled);
    lemma_with_synced_root(d3, BookmarkRootGuid::Unfiled);
    lemma_with_synced_root(d4, BookmarkRootGuid::Mobile);
}

/// The keys of a new store are unique.
pub proof fn lemma_new_store_has_unique_keys(conn_type: crate::types::ConnectionType)
    ensures
        DbModel::empty(conn_type).has_unique_keys(),
{
    let bare = DbModel {
        synced: Seq::empty(),
        synced_structure: Seq::empty(),
        ..DbModel::empty(conn_type)
    };
    assert(bare.has_unique_keys());
    lemma_with_synced_roots(bare);
}

/// The keys are unique after an incoming item was staged.
pub proof fn lemma_with_incoming(
    db: DbModel,
    item: IncomingItemModel,
    href: Option<Seq<char>>,
    server_modified: i64,
)
    requires
        db.has_unique_keys(),
        href is None || db.has_room_for_place(),
    ensures
        db.with_incoming(item, href, server_modified).has_unique_keys(),
{
    let places = match href {
        Some(h) => with_place(db.places, h),
        None => db.places,
    };
    if href is Some {
        lemma_with_place(db.places, href.unwrap());
    }
    lemma_with_synced_row(
        db.synced,
        crate::incoming::incoming_row(
            item,
            href,
            crate::incoming::place_id_of(places, href),
            server_modified,
        ),
    );
}

/// The keys are unique after incoming records were staged.
pub proof fn lemma_apply_records(db: DbModel, changes: Seq<(RecordModel, i64)>, n: int)
    requires
        db.has_unique_keys(),
        db.has_room_for_places(changes),
        0 <= n <= changes.len(),
    ensures
        db.apply_records(changes, n).has_unique_keys(),
    decreases n,
{
    if n > 0 {
        lemma_apply_records(db, changes, n - 1);
        crate::incoming::lemma_apply_records_ids(db, changes, n - 1);
        let before = db.apply_records(changes, n - 1);
        let record = changes[n - 1].0;
        if !record.is_malformed() && record.item() is Some {
            lemma_with_incoming(before, record.item().unwrap(), record.href(), changes[n - 1].1);
        }
    }
}

/// The keys are unique after one merged row was applied.
pub proof fn lemma_merge_item(db: DbModel, r: MergedRowModel, now: i64)
    requires
        db.has_unique_keys(),
        max_local_id(db.bookmarks) < i64::MAX,
    ensures
        db.merge_item(r, now).has_unique_keys(),
{
    let local = local_side(db.bookmarks, r);
    let remote = remote_side(db.synced, r);
    if local is Some {
        lemma_first_index(db.bookmarks, crate::db::local_has_guid(r.local_guid.unwrap()));
    }
    if remote is Some {
        lemma_first_index(db.synced, synced_has_guid(r.remote_guid.unwrap()));
    }
    lemma_with_merged_flag(db.synced, remote);
    let after = db.merge_content(r, now);
    match (local, remote) {
        (Some(i), Some(j)) if r.use_remote => {
            lemma_update_distinct(db.bookmarks, local_id(), i, after.bookmarks[i]);
            let b = db.bookmarks[i];
            let v = db.synced[j];
            lemma_with_stale(db.stale_frecencies, db.places, b.place_id, now);
            lemma_with_stale(
                with_stale(db.stale_frecencies, db.places, b.place_id, now),
                db.places,
                v.place_id,
                now,
            );
        },
        (Some(i), _) => {
            lemma_update_distinct(db.bookmarks, local_id(), i, after.bookmarks[i]);
        },
        (None, Some(j)) if r.use_remote && db.synced[j].kind.local_type() is Some => {
            let x = after.bookmarks.last();
            assert forall|i: int| 0 <= i < db.bookmarks.len() implies local_id()(
                #[trigger] db.bookmarks[i],
            ) != local_id()(x) by {
                lemma_max_local_id(db.bookmarks, i);
            }
            lemma_push_distinct(db.bookmarks, local_id(), x);
            lemma_with_stale(db.stale_frecencies, db.places, db.synced[j].place_id, now);
        },
        _ => {},
    }
    lemma_filter_distinct(db.deleted, tombstone_guid(), entombs_other(r.merged_guid));
}

/// The keys are unique after merged rows were applied.
pub proof fn lemma_merge_items(db: DbModel, rows: Seq<MergedRowModel>, now: i64, n: int)
    requires
        db.has_unique_keys(),
        db.has_room_for(rows),
        0 <= n <= rows.len(),
    ensures
        db.merge_items(rows, now, n).has_unique_keys(),
    decreases n,
{
    if n > 0 {
        lemma_merge_items(db, rows, now, n - 1);
        crate::applier::lemma_merge_items_ids(db, rows, now, n - 1);
        lemma_merge_item(db.merge_items(rows, now, n - 1), rows[n - 1], now);
    }
}

/// No two local items have the same key after items were put in their
/// places.
pub proof fn lemma_placed_items(items: Seq<LocalItemModel>, rows: Seq<MergedRowModel>, n: int)
    requires
        distinct_by(items, local_id()),
    ensures
        distinct_by(placed_items(items, rows, n), local_id()),
    decreases n,
{
    if n > 0 {
        lemma_placed_items(items, rows, n - 1);
        let before = placed_items(items, rows, n - 1);
        let r = rows[n - 1];
        let after = placed_item(before, r);
        if after != before {
            lemma_first_index(before, crate::db::local_has_guid(r.merged_guid));
            let i = crate::db::local_index(before, r.merged_guid).unwrap();
            lemma_update_distinct(before, local_id(), i, after[i]);
        }
    }
}

/// The keys are unique after one deletion was applied.
pub proof fn lemma_remove_item(db: DbModel, d: RemovalRowModel, now: i64)
    requires
        db.has_unique_keys(),
    ensures
        db.remove_item(d, now).has_unique_keys(),
{
    let found = if crate::guid::is_root_guid(d.guid) {
        None
    } else {
        crate::db::local_index(db.bookmarks, d.guid)
    };
    match found {
        Some(i) => {
            lemma_first_index(db.bookmarks, crate::db::local_has_guid(d.guid));
            lemma_remove_distinct(db.bookmarks, local_id(), i);
            lemma_with_stale(db.stale_frecencies, db.places, db.bookmarks[i].place_id, now);
        },
        None => {},
    }
    lemma_first_index(db.deleted, tombstone_has_guid(d.guid));
    if d.should_upload_tombstone && tombstone_index(db.deleted, d.guid) is None {
        lemma_push_distinct(
            db.deleted,
            tombstone_guid(),
            TombstoneModel { guid: d.guid, date_removed: now },
        );
    }
    lemma_first_index(db.synced, synced_has_guid(d.guid));
    lemma_with_merged_flag(db.synced, synced_index(db.synced, d.guid));
}

/// The keys are unique after deletions were applied.
pub proof fn lemma_remove_items(db: DbModel, deletions: Seq<RemovalRowModel>, now: i64, n: int)
    requires
        db.has_unique_keys(),
    ensures
        db.remove_items(deletions, now, n).has_unique_keys(),
    decreases n,
{
    if n > 0 {
        lemma_remove_items(db, deletions, now, n - 1);
        lemma_remove_item(db.remove_items(deletions, now, n - 1), deletions[n - 1], now);
    }
}

/// Applying a merged tree and staging what goes up keeps the keys unique.
pub proof fn lemma_apply_merged_keeps_the_keys_unique(
    db: DbModel,
    rows: Seq<MergedRowModel>,
    deletions: Seq<RemovalRowModel>,
    now: i64,
)
    requires
        db.has_unique_keys(),
        db.has_room_for(rows),
    ensures
        db.apply_merged(rows, deletions, now).has_unique_keys(),
        db.apply_merged(rows, deletions, now).staged(rows).has_unique_keys(),
{
    let merged = db.merge_items(rows, now, rows.len() as int);
    lemma_merge_items(db, rows, now, rows.len() as int);
    lemma_placed_items(merged.bookmarks, rows, rows.len() as int);
    lemma_remove_items(merged.place_items(rows), deletions, now, deletions.len() as int);
}

/// The keys are unique after a staged item went up.
pub proof fn lemma_push_uploaded(db: DbModel, u: UploadItemModel, uploaded_at: i64)
    requires
        db.has_unique_keys(),
    ensures
        db.push_uploaded(u, uploaded_at).has_unique_keys(),
{
    let after = settled_items(db.bookmarks, u);
    if after != db.bookmarks {
        lemma_first_index(db.bookmarks, crate::db::local_has_id(u.id.unwrap()));
        let i = crate::db::local_by_id_index(db.bookmarks, u.id.unwrap()).unwrap();
        lemma_update_distinct(db.bookmarks, local_id(), i, after[i]);
    }
    lemma_filter_distinct(db.deleted, tombstone_guid(), entombs_other(u.guid));
    lemma_with_synced_row(db.synced, crate::finalize::uploaded_row(u, uploaded_at));
}

/// The keys are unique after staged items went up.
pub proof fn lemma_push_uploads(db: DbModel, records: Seq<Seq<char>>, uploaded_at: i64, n: int)
    requires
        db.has_unique_keys(),
    ensures
        db.push_uploads(records, uploaded_at, n).has_unique_keys(),
    decreases n,
{
    if n > 0 {
        lemma_push_uploads(db, records, uploaded_at, n - 1);
        lemma_push_uploaded(
            db.push_uploads(records, uploaded_at, n - 1),
            db.items_to_upload[n - 1],
            uploaded_at,
        );
    }
}

/// Staging incoming records keeps the keys unique.
pub proof fn lemma_staging_keeps_the_keys_unique(db: DbModel, changes: Seq<(RecordModel, i64)>, time: i64)
    requires
        db.has_unique_keys(),
        db.has_room_for_places(changes),
    ensures
        db.with_staged_changes(changes, time).has_unique_keys(),
{
    lemma_apply_records(db, changes, changes.len() as int);
}

/// Settling what went up keeps the keys unique.
pub proof fn lemma_push_synced_keeps_the_keys_unique(
    db: DbModel,
    records: Seq<Seq<char>>,
    uploaded_at: i64,
)
    requires
        db.has_unique_keys(),
    ensures
        db.push_synced(records, uploaded_at).has_unique_keys(),
{
    lemma_push_uploads(db, records, uploaded_at, db.items_to_upload.len() as int);
}

/// New frecencies keep the keys unique.
pub proof fn lemma_rescored_keeps_the_keys_unique<F: Fn(i64) -> i32>(
    db: DbModel,
    places: Seq<PlaceModel>,
    fresh: spec_fn(i64) -> bool,
    scorer: F,
)
    requires
        db.has_unique_keys(),
        crate::frecency::rescored(db.places, places, fresh, scorer),
    ensures
        (DbModel { places, stale_frecencies: Seq::empty(), ..db }).has_unique_keys(),
{
    assert forall|i: int, j: int| 0 <= i < j < places.len() implies place_id()(
        #[trigger] places[i],
    ) != place_id()(#[trigger] places[j]) by {
        assert(place_id()(db.places[i]) != place_id()(db.places[j]));
    }
    assert forall|i: int, j: int| 0 <= i < j < places.len() implies place_url()(
        #[trigger] places[i],
    ) != place_url()(#[trigger] places[j]) by {
        assert(place_url()(db.places[i]) != place_url()(db.places[j]));
    }
}

/// `reset` keeps the keys unique.
pub proof fn lemma_reset_keeps_the_keys_unique(db: DbModel, assoc: Option<(Seq<char>, Seq<char>)>)
    requires
        db.has_unique_keys(),
    ensures
        db.reset(assoc).has_unique_keys(),
{
    let f = |b: LocalItemModel| crate::lifecycle::as_never_synced(b);
    lemma_map_distinct(db.bookmarks, local_id(), f);
    let cleared = DbModel {
        bookmarks: db.bookmarks.map_values(f),
        deleted: Seq::empty(),
        synced: Seq::empty(),
        synced_structure: Seq::empty(),
        synced_tags: Seq::empty(),
        meta: db.reset(assoc).meta,
        ..db
    };
    lemma_with_synced_roots(cleared);
}

proof fn lemma_wiped_tombstones(
    deleted: Seq<TombstoneModel>,
    items: Seq<LocalItemModel>,
    now: i64,
    n: int,
)
    requires
        distinct_by(deleted, tombstone_guid()),
    ensures
        distinct_by(crate::lifecycle::wiped_tombstones(deleted, items, now, n), tombstone_guid()),
    decreases n,
{
    if n > 0 {
        lemma_wiped_tombstones(deleted, items, now, n - 1);
        let before = crate::lifecycle::wiped_tombstones(deleted, items, now, n - 1);
        let b = items[n - 1];
        lemma_first_index(before, tombstone_has_guid(b.guid));
        if crate::lifecycle::wiped_tombstones(deleted, items, now, n) != before {
            lemma_push_distinct(
                before,
                tombstone_guid(),
                TombstoneModel { guid: b.guid, date_removed: now },
            );
        }
    }
}

/// `wipe` keeps the keys unique.
pub proof fn lemma_wipe_keeps_the_keys_unique(db: DbModel, now: i64)
    requires
        db.has_unique_keys(),
    ensures
        db.wipe(now).has_unique_keys(),
{
    lemma_wiped_tombstones(db.deleted, db.bookmarks, now, db.bookmarks.len() as int);
    lemma_filter_distinct(db.bookmarks, local_id(), crate::lifecycle::is_a_root());
    let f = |b: LocalItemModel| crate::lifecycle::as_wiped_root(b);
    lemma_map_distinct(db.bookmarks.filter(crate::lifecycle::is_a_root()), local_id(), f);
    let wiped = DbModel {
        deleted: crate::lifecycle::wiped_tombstones(
            db.deleted,
            db.bookmarks,
            now,
            db.bookmarks.len() as int,
        ),
        bookmarks: db.bookmarks.filter(crate::lifecycle::is_a_root()).map_values(f),
        ..db
    };
    lemma_with_synced_roots(wiped);
}

} // verus!
