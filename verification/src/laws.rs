//! What holds of the store after each operation.

use vstd::prelude::*;
use crate::applier::{local_side, placed_item, placed_items};
use crate::db::{
    local_by_id_index, local_has_id, local_index, structure_at, synced_has_guid, synced_index,
    tombstone_has_guid, tombstone_index, url_of_place, DbModel,
};
use crate::error::ErrorKind;
use crate::finalize::{names_guid, settled};
use crate::guid::{is_root_guid, lemma_root_guids_distinct, root_guid, BookmarkRootGuid};
use crate::lifecycle::{as_wiped_root, is_a_root, wipe_entombs, wiped_tombstones};
use crate::keys::{distinct_by, lemma_filter_distinct, local_id};
use crate::local_tree::{local_tree_order, tree_keys};
use crate::order::{lemma_sorted_keys, SortKey};
use crate::merge_driver::remote_tree_items;
use crate::merger::{new_local_content, new_remote_content, NewContentModel};
use crate::record::RecordModel;
use crate::remote_tree::{is_descendant_key, is_live_root, remote_root_index, row_keys};
use crate::roots::{root_structure, synced_root};
use crate::rows::{
    LocalItemModel, MergedRowModel, RemovalRowModel, TombstoneModel, UploadItemModel,
};
use crate::soundness::has_one_entry_per_guid;
use crate::seqs::{lemma_first_index, lemma_first_index_is, lemma_first_index_none};
use crate::staging::{staged_items, weakly_uploaded, with_staged_tombstones};
use crate::text::text_or_empty;
use crate::text_order::{lemma_sorted_text_keys, sorted_text_keys};
use crate::types::SyncStatus;

verus! {

/// The mirror's rows for the five roots.
pub open spec fn synced_roots() -> Seq<crate::rows::SyncedItemModel> {
    seq![
        synced_root(BookmarkRootGuid::Root),
        synced_root(BookmarkRootGuid::Menu),
        synced_root(BookmarkRootGuid::Toolbar),
        synced_root(BookmarkRootGuid::Unfiled),
        synced_root(BookmarkRootGuid::Mobile),
    ]
}

/// The rows that list the five roots under the synthetic root.
pub open spec fn root_structures() -> Seq<crate::rows::StructureRowModel> {
    seq![
        root_structure(BookmarkRootGuid::Root),
        root_structure(BookmarkRootGuid::Menu),
        root_structure(BookmarkRootGuid::Toolbar),
        root_structure(BookmarkRootGuid::Unfiled),
        root_structure(BookmarkRootGuid::Mobile),
    ]
}

proof fn lemma_roots_into_empty_mirror(db: DbModel)
    requires
        db.synced.len() == 0,
        db.synced_structure.len() == 0,
    ensures
        db.with_synced_roots().synced == synced_roots(),
        db.with_synced_roots().synced_structure == root_structures(),
{
    lemma_root_guids_distinct();
    let r = BookmarkRootGuid::Root;
    let m = BookmarkRootGuid::Menu;
    let t = BookmarkRootGuid::Toolbar;
    let u = BookmarkRootGuid::Unfiled;
    let d0 = db;
    lemma_first_index_none(d0.synced, synced_has_guid(r.guid()));
    lemma_first_index_none(d0.synced_structure, structure_at(root_guid(), r.position()));
    let d1 = d0.with_synced_root(r);
    assert(d1.synced =~= seq![synced_root(r)]);
    assert(d1.synced_structure =~= seq![root_structure(r)]);
    lemma_first_index_none(d1.synced, synced_has_guid(m.guid()));
    lemma_first_index_none(d1.synced_structure, structure_at(root_guid(), m.position()));
    let d2 = d1.with_synced_root(m);
    assert(d2.synced =~= seq![synced_root(r), synced_root(m)]);
    assert(d2.synced_structure =~= seq![root_structure(r), root_structure(m)]);
    lemma_first_index_none(d2.synced, synced_has_guid(t.guid()));
    lemma_first_index_none(d2.synced_structure, structure_at(root_guid(), t.position()));
    let d3 = d2.with_synced_root(t);
    assert(d3.synced =~= seq![synced_root(r), synced_root(m), synced_root(t)]);
    assert(d3.synced_structure =~= seq![root_structure(r), root_structure(m), root_structure(t)]);
    lemma_first_index_none(d3.synced, synced_has_guid(u.guid()));
    lemma_first_index_none(d3.synced_structure, structure_at(root_guid(), u.position()));
    let d4 = d3.with_synced_root(u);
    assert(d4.synced =~= seq![synced_root(r), synced_root(m), synced_root(t), synced_root(u)]);
    assert(d4.synced_structure =~= seq![
        root_structure(r),
        root_structure(m),
        root_structure(t),
        root_structure(u),
    ]);
    lemma_first_index_none(d4.synced, synced_has_guid(BookmarkRootGuid::Mobile.guid()));
    lemma_first_index_none(
        d4.synced_structure,
        structure_at(root_guid(), BookmarkRootGuid::Mobile.position()),
    );
    let d5 = d4.with_synced_root(BookmarkRootGuid::Mobile);
    assert(d5.synced =~= synced_roots());
    assert(d5.synced_structure =~= root_structures());
}

/// After `reset` the mirror holds the rows of the five roots and no other,
/// no tombstone is left, the last sync is forgotten, and every local item
/// is what it was but for its change counter, which is 1, and its status,
/// which is new.
pub proof fn lemma_reset_forgets_the_server(db: DbModel, assoc: Option<(Seq<char>, Seq<char>)>)
    ensures
        db.reset(assoc).synced == synced_roots(),
        db.reset(assoc).synced_structure == root_structures(),
        db.reset(assoc).synced_tags.len() == 0,
        db.reset(assoc).deleted.len() == 0,
        db.reset(assoc).meta.last_sync == Some(0i64),
        db.reset(assoc).bookmarks.len() == db.bookmarks.len(),
        forall|i: int|
            0 <= i < db.bookmarks.len() ==> #[trigger] db.reset(assoc).bookmarks[i]
                == (LocalItemModel {
                sync_change_counter: 1,
                sync_status: SyncStatus::New,
                ..db.bookmarks[i]
            }),
{
    let cleared = DbModel {
        bookmarks: db.bookmarks.map_values(
            |b: LocalItemModel| crate::lifecycle::as_never_synced(b),
        ),
        deleted: Seq::empty(),
        synced: Seq::empty(),
        synced_structure: Seq::empty(),
        synced_tags: Seq::empty(),
        meta: db.reset(assoc).meta,
        ..db
    };
    lemma_roots_into_empty_mirror(cleared);
}

proof fn lemma_wiped_tombstones_grow(
    deleted: Seq<TombstoneModel>,
    items: Seq<LocalItemModel>,
    now: i64,
    n: int,
)
    requires
        0 <= n <= items.len(),
    ensures
        forall|guid: Seq<char>| #[trigger]
            tombstone_index(deleted, guid) is Some ==> tombstone_index(
                wiped_tombstones(deleted, items, now, n),
                guid,
            ) is Some,
        forall|j: int|
            0 <= j < n && wipe_entombs(#[trigger] items[j]) ==> tombstone_index(
                wiped_tombstones(deleted, items, now, n),
                items[j].guid,
            ) is Some,
    decreases n,
{
    if n > 0 {
        lemma_wiped_tombstones_grow(deleted, items, now, n - 1);
        let before = wiped_tombstones(deleted, items, now, n - 1);
        let after = wiped_tombstones(deleted, items, now, n);
        assert forall|guid: Seq<char>| tombstone_index(before, guid) is Some implies tombstone_index(
            after,
            guid,
        ) is Some by {
            lemma_first_index(before, tombstone_has_guid(guid));
            let k = tombstone_index(before, guid).unwrap();
            assert(after[k] == before[k]);
            lemma_first_index(after, tombstone_has_guid(guid));
            assert(tombstone_has_guid(guid)(after[k]));
        }
        let b = items[n - 1];
        if wipe_entombs(b) && tombstone_index(before, b.guid) is None {
            let k = before.len() as int;
            assert(tombstone_has_guid(b.guid)(after[k]));
            lemma_first_index(after, tombstone_has_guid(b.guid));
        }
    }
}

/// After `wipe` every local item is one of the five roots, each root that
/// was there is still there, and every other item that the server had has
/// a tombstone.
pub proof fn lemma_wipe_leaves_roots_and_tombstones(db: DbModel, now: i64)
    ensures
        forall|i: int|
            0 <= i < db.wipe(now).bookmarks.len() ==> is_root_guid(
                #[trigger] db.wipe(now).bookmarks[i].guid,
            ),
        forall|j: int|
            0 <= j < db.bookmarks.len() && is_root_guid(#[trigger] db.bookmarks[j].guid)
                ==> exists|i: int|
                0 <= i < db.wipe(now).bookmarks.len() && #[trigger] db.wipe(now).bookmarks[i].guid
                    == db.bookmarks[j].guid && db.wipe(now).bookmarks[i].id == db.bookmarks[j].id,
        forall|j: int|
            0 <= j < db.bookmarks.len() && !is_root_guid(#[trigger] db.bookmarks[j].guid)
                && db.bookmarks[j].sync_status == SyncStatus::Normal ==> tombstone_index(
                db.wipe(now).deleted,
                db.bookmarks[j].guid,
            ) is Some,
        db.wipe(now).meta == db.meta,
{
    let roots = db.bookmarks.filter(is_a_root());
    let kept = roots.map_values(|b: LocalItemModel| as_wiped_root(b));
    assert(db.wipe(now).bookmarks == kept);
    broadcast use vstd::seq_lib::group_filter_ensures;

    assert forall|i: int| 0 <= i < kept.len() implies is_root_guid(#[trigger] kept[i].guid) by {
        assert(is_a_root()(roots[i]));
    }
    assert forall|j: int|
        0 <= j < db.bookmarks.len() && is_root_guid(
            #[trigger] db.bookmarks[j].guid,
        ) implies exists|i: int|
        0 <= i < kept.len() && #[trigger] kept[i].guid == db.bookmarks[j].guid && kept[i].id
            == db.bookmarks[j].id by {
        assert(is_a_root()(db.bookmarks[j]));
        assert(roots.contains(db.bookmarks[j]));
        let i = choose|i: int| 0 <= i < roots.len() && roots[i] == db.bookmarks[j];
        assert(kept[i].guid == db.bookmarks[j].guid);
    }
    lemma_wiped_tombstones_grow(db.deleted, db.bookmarks, now, db.bookmarks.len() as int);
}

/// Whether two lists of local items hold the same items in the same
/// places, whatever their change counters and statuses are.
pub open spec fn same_items(a: Seq<LocalItemModel>, b: Seq<LocalItemModel>) -> bool {
    &&& a.len() == b.len()
    &&& forall|i: int|
        0 <= i < a.len() ==> (#[trigger] a[i]).id == b[i].id && a[i].guid == b[i].guid
            && a[i].sync_change_counter <= b[i].sync_change_counter
}

proof fn lemma_same_items_same_index(a: Seq<LocalItemModel>, b: Seq<LocalItemModel>, id: i64)
    requires
        same_items(a, b),
    ensures
        local_by_id_index(a, id) == local_by_id_index(b, id),
{
    let p = local_has_id(id);
    lemma_first_index(b, p);
    match local_by_id_index(b, id) {
        Some(i) => {
            assert(p(a[i]));
            assert forall|j: int| 0 <= j < i implies !p(#[trigger] a[j]) by {
                assert(!p(b[j]));
            }
            lemma_first_index_is(a, p, i);
        },
        None => {
            assert forall|j: int| 0 <= j < a.len() implies !p(#[trigger] a[j]) by {
                assert(!p(b[j]));
            }
            lemma_first_index_none(a, p);
        },
    }
}

proof fn lemma_push_uploads_settle(
    db: DbModel,
    records: Seq<Seq<char>>,
    uploaded_at: i64,
    n: int,
)
    requires
        0 <= n <= db.items_to_upload.len(),
    ensures
        same_items(db.push_uploads(records, uploaded_at, n).bookmarks, db.bookmarks),
        db.push_uploads(records, uploaded_at, n).meta == db.meta,
        forall|k: int|
            0 <= k < n && names_guid(records, (#[trigger] db.items_to_upload[k]).guid)
                && db.items_to_upload[k].id is Some && local_by_id_index(
                db.bookmarks,
                db.items_to_upload[k].id.unwrap(),
            ) is Some ==> {
                let i = local_by_id_index(db.bookmarks, db.items_to_upload[k].id.unwrap()).unwrap();
                let b = db.push_uploads(records, uploaded_at, n).bookmarks[i];
                &&& b.sync_status == SyncStatus::Normal
                &&& b.sync_change_counter <= settled(
                    db.bookmarks[i].sync_change_counter,
                    db.items_to_upload[k].sync_change_counter,
                )
            },
    decreases n,
{
    if n > 0 {
        lemma_push_uploads_settle(db, records, uploaded_at, n - 1);
        crate::finalize::lemma_push_keeps_staged(db, records, uploaded_at, n - 1);
        let before = db.push_uploads(records, uploaded_at, n - 1);
        let after = db.push_uploads(records, uploaded_at, n);
        let u = db.items_to_upload[n - 1];
        if names_guid(records, u.guid) {
            if u.id is Some {
                let id = u.id.unwrap();
                lemma_same_items_same_index(before.bookmarks, db.bookmarks, id);
                lemma_first_index(db.bookmarks, local_has_id(id));
            }
            assert(same_items(after.bookmarks, db.bookmarks));
            assert forall|k: int|
                0 <= k < n && names_guid(records, (#[trigger] db.items_to_upload[k]).guid)
                    && db.items_to_upload[k].id is Some && local_by_id_index(
                    db.bookmarks,
                    db.items_to_upload[k].id.unwrap(),
                ) is Some implies {
                let i = local_by_id_index(db.bookmarks, db.items_to_upload[k].id.unwrap()).unwrap();
                let b = after.bookmarks[i];
                &&& b.sync_status == SyncStatus::Normal
                &&& b.sync_change_counter <= settled(
                    db.bookmarks[i].sync_change_counter,
                    db.items_to_upload[k].sync_change_counter,
                )
            } by {
                let id_k = db.items_to_upload[k].id.unwrap();
                lemma_first_index(db.bookmarks, local_has_id(id_k));
            }
        }
    }
}

/// After the server has taken the records `records`, the time of the last
/// sync is the server's time and nothing is staged. A local item of which a
/// snapshot went up is what it was but for its status, which is normal, and
/// its change counter, which is that of before less the staged changes or
/// less: it is 0 where the snapshot held all the item's changes.
pub proof fn lemma_push_synced_settles(
    db: DbModel,
    records: Seq<Seq<char>>,
    uploaded_at: i64,
    k: int,
)
    requires
        0 <= k < db.items_to_upload.len(),
        names_guid(records, db.items_to_upload[k].guid),
        db.items_to_upload[k].id is Some,
        local_by_id_index(db.bookmarks, db.items_to_upload[k].id.unwrap()) is Some,
    ensures
        db.push_synced(records, uploaded_at).meta.last_sync == Some(uploaded_at),
        db.push_synced(records, uploaded_at).items_to_upload.len() == 0,
        ({
            let i = local_by_id_index(db.bookmarks, db.items_to_upload[k].id.unwrap()).unwrap();
            let b = db.push_synced(records, uploaded_at).bookmarks[i];
            &&& 0 <= i < db.bookmarks.len()
            &&& b.id == db.bookmarks[i].id
            &&& b.guid == db.bookmarks[i].guid
            &&& b.sync_status == SyncStatus::Normal
            &&& b.sync_change_counter <= settled(
                db.bookmarks[i].sync_change_counter,
                db.items_to_upload[k].sync_change_counter,
            )
            &&& db.items_to_upload[k].sync_change_counter >= db.bookmarks[i].sync_change_counter
                ==> b.sync_change_counter == 0
        }),
{
    lemma_push_uploads_settle(db, records, uploaded_at, db.items_to_upload.len() as int);
    lemma_first_index(db.bookmarks, local_has_id(db.items_to_upload[k].id.unwrap()));
}

proof fn lemma_push_uploads_settle_exactly(
    db: DbModel,
    records: Seq<Seq<char>>,
    uploaded_at: i64,
    n: int,
    k: int,
)
    requires
        0 <= n <= db.items_to_upload.len(),
        0 <= k < db.items_to_upload.len(),
        names_guid(records, db.items_to_upload[k].guid),
        db.items_to_upload[k].id is Some,
        local_by_id_index(db.bookmarks, db.items_to_upload[k].id.unwrap()) is Some,
        forall|j: int|
            0 <= j < db.items_to_upload.len() && j != k ==> (#[trigger] db.items_to_upload[j]).id
                != db.items_to_upload[k].id,
    ensures
        ({
            let i = local_by_id_index(db.bookmarks, db.items_to_upload[k].id.unwrap()).unwrap();
            &&& 0 <= i < db.bookmarks.len()
            &&& db.push_uploads(records, uploaded_at, n).bookmarks.len() == db.bookmarks.len()
            &&& db.push_uploads(records, uploaded_at, n).bookmarks[i].sync_change_counter == if k
                < n {
                settled(
                    db.bookmarks[i].sync_change_counter,
                    db.items_to_upload[k].sync_change_counter,
                )
            } else {
                db.bookmarks[i].sync_change_counter
            }
        }),
    decreases n,
{
    let id_k = db.items_to_upload[k].id.unwrap();
    lemma_first_index(db.bookmarks, local_has_id(id_k));
    lemma_push_uploads_settle(db, records, uploaded_at, n);
    if n > 0 {
        lemma_push_uploads_settle_exactly(db, records, uploaded_at, n - 1, k);
        lemma_push_uploads_settle(db, records, uploaded_at, n - 1);
        crate::finalize::lemma_push_keeps_staged(db, records, uploaded_at, n - 1);
        let before = db.push_uploads(records, uploaded_at, n - 1);
        let u = db.items_to_upload[n - 1];
        if names_guid(records, u.guid) && u.id is Some {
            let id = u.id.unwrap();
            lemma_same_items_same_index(before.bookmarks, db.bookmarks, id);
            lemma_first_index(db.bookmarks, local_has_id(id));
        }
    }
}

/// Where a local item has one staged snapshot and the server has taken it,
/// the item's change counter is that of before less the staged changes, and
/// 0 where that would be less than 0.
pub proof fn lemma_push_synced_settles_exactly(
    db: DbModel,
    records: Seq<Seq<char>>,
    uploaded_at: i64,
    k: int,
)
    requires
        0 <= k < db.items_to_upload.len(),
        names_guid(records, db.items_to_upload[k].guid),
        db.items_to_upload[k].id is Some,
        local_by_id_index(db.bookmarks, db.items_to_upload[k].id.unwrap()) is Some,
        forall|j: int|
            0 <= j < db.items_to_upload.len() && j != k ==> (#[trigger] db.items_to_upload[j]).id
                != db.items_to_upload[k].id,
    ensures
        ({
            let i = local_by_id_index(db.bookmarks, db.items_to_upload[k].id.unwrap()).unwrap();
            db.push_synced(records, uploaded_at).bookmarks[i].sync_change_counter == settled(
                db.bookmarks[i].sync_change_counter,
                db.items_to_upload[k].sync_change_counter,
            )
        }),
{
    lemma_push_uploads_settle_exactly(
        db,
        records,
        uploaded_at,
        db.items_to_upload.len() as int,
        k,
    );
}

/// The tree's order names no local item twice.
pub proof fn lemma_tree_order_names_each_item_once(items: Seq<LocalItemModel>)
    requires
        items.len() <= usize::MAX,
    ensures
        forall|a: int, b: int|
            0 <= a < b < local_tree_order(items).len() ==> (#[trigger] local_tree_order(
                items,
            )[a]).index != (#[trigger] local_tree_order(items)[b]).index,
{
    broadcast use vstd::seq_lib::group_to_multiset_ensures;

    let index = |k: SortKey| k.index;
    let keys = tree_keys(items);
    assert(distinct_by(keys, index));
    lemma_filter_distinct(keys, index, crate::local_tree::is_rooted());
    let rooted = keys.filter(crate::local_tree::is_rooted());
    assert forall|i: int, j: int|
        0 <= i < rooted.len() && 0 <= j < rooted.len() && i != j implies rooted[i]
        != rooted[j] by {
        if i < j {
            assert(index(rooted[i]) != index(rooted[j]));
        } else {
            assert(index(rooted[j]) != index(rooted[i]));
        }
    }
    rooted.lemma_multiset_has_no_duplicates();
    lemma_sorted_keys(rooted);
    let order = local_tree_order(items);
    order.lemma_multiset_has_no_duplicates_conv();
    assert forall|a: int, b: int| 0 <= a < b < order.len() implies (#[trigger] order[a]).index != (
    #[trigger] order[b]).index by {
        assert(rooted.contains(order[a]));
        assert(rooted.contains(order[b]));
        let i = choose|i: int| 0 <= i < rooted.len() && rooted[i] == order[a];
        let j = choose|j: int| 0 <= j < rooted.len() && rooted[j] == order[b];
        assert(order[a] != order[b]);
        if i < j {
            assert(index(rooted[i]) != index(rooted[j]));
        } else {
            assert(index(rooted[j]) != index(rooted[i]));
        }
    }
}

/// Whether the staged row `u` is a snapshot of the local item `b`: it has
/// the item's key, guid and change counter.
pub open spec fn is_snapshot_of(u: UploadItemModel, b: LocalItemModel) -> bool {
    u.id == Some(b.id) && u.guid == b.guid && u.sync_change_counter == b.sync_change_counter
}

proof fn lemma_staged_items_are_one_per_item(
    db: DbModel,
    rows: Seq<MergedRowModel>,
    n: int,
)
    requires
        db.bookmarks.len() <= usize::MAX,
        distinct_by(db.bookmarks, local_id()),
        0 <= n <= local_tree_order(db.bookmarks).len(),
    ensures
        forall|a: int|
            0 <= a < staged_items(db.bookmarks, db.synced, db.places, rows, n).len() ==> exists|
                j: int,
            |
                0 <= j < n && is_snapshot_of(
                    #[trigger] staged_items(db.bookmarks, db.synced, db.places, rows, n)[a],
                    db.bookmarks[(#[trigger] local_tree_order(db.bookmarks)[j]).index as int],
                ),
        forall|a: int, b: int|
            0 <= a < b < staged_items(db.bookmarks, db.synced, db.places, rows, n).len()
                ==> (#[trigger] staged_items(db.bookmarks, db.synced, db.places, rows, n)[a]).id
                != (#[trigger] staged_items(db.bookmarks, db.synced, db.places, rows, n)[b]).id,
    decreases n,
{
    if n > 0 {
        lemma_staged_items_are_one_per_item(db, rows, n - 1);
        crate::local_tree::lemma_local_tree_order(db.bookmarks);
        lemma_tree_order_names_each_item_once(db.bookmarks);
        let order = local_tree_order(db.bookmarks);
        let before = staged_items(db.bookmarks, db.synced, db.places, rows, n - 1);
        let after = staged_items(db.bookmarks, db.synced, db.places, rows, n);
        let i = order[n - 1].index as int;
        assert forall|a: int| 0 <= a < after.len() implies exists|j: int|
            0 <= j < n && is_snapshot_of(
                #[trigger] after[a],
                db.bookmarks[(#[trigger] order[j]).index as int],
            ) by {
            if a < before.len() {
                let j = choose|j: int|
                    0 <= j < n - 1 && is_snapshot_of(
                        before[a],
                        db.bookmarks[(#[trigger] order[j]).index as int],
                    );
                assert(0 <= j < n && is_snapshot_of(after[a], db.bookmarks[order[j].index as int]));
            } else {
                assert(is_snapshot_of(after[a], db.bookmarks[order[n - 1].index as int]));
            }
        }
        assert forall|a: int, b: int| 0 <= a < b < after.len() implies (#[trigger] after[a]).id != (
        #[trigger] after[b]).id by {
            if b >= before.len() {
                let j = choose|j: int|
                    0 <= j < n - 1 && is_snapshot_of(
                        before[a],
                        db.bookmarks[(#[trigger] order[j]).index as int],
                    );
                let ij = order[j].index as int;
                assert(order[j].index != order[n - 1].index);
                if ij < i {
                    assert(local_id()(db.bookmarks[ij]) != local_id()(db.bookmarks[i]));
                } else {
                    assert(local_id()(db.bookmarks[i]) != local_id()(db.bookmarks[ij]));
                }
            }
        }
    }
}

proof fn lemma_staged_tombstones_have_no_key(
    staged: Seq<UploadItemModel>,
    deleted: Seq<TombstoneModel>,
    n: int,
)
    requires
        0 <= n <= deleted.len(),
    ensures
        with_staged_tombstones(staged, deleted, n).len() >= staged.len(),
        forall|a: int|
            0 <= a < staged.len() ==> #[trigger] with_staged_tombstones(staged, deleted, n)[a]
                == staged[a],
        forall|a: int|
            staged.len() <= a < with_staged_tombstones(staged, deleted, n).len() ==> (
            #[trigger] with_staged_tombstones(staged, deleted, n)[a]).id is None,
    decreases n,
{
    if n > 0 {
        lemma_staged_tombstones_have_no_key(staged, deleted, n - 1);
    }
}

/// Where no two local items have the same key, at most one snapshot is
/// staged of a local item: no two staged rows stand for the same item.
pub proof fn lemma_one_snapshot_is_staged_of_an_item(
    db: DbModel,
    rows: Seq<MergedRowModel>,
    k: int,
)
    requires
        db.bookmarks.len() <= usize::MAX,
        db.has_unique_keys(),
        0 <= k < db.staged(rows).items_to_upload.len(),
        db.staged(rows).items_to_upload[k].id is Some,
    ensures
        forall|j: int|
            0 <= j < db.staged(rows).items_to_upload.len() && j != k ==> (#[trigger] db.staged(
                rows,
            ).items_to_upload[j]).id != db.staged(rows).items_to_upload[k].id,
{
    let snapshots = db.staged_snapshots(rows);
    let staged = db.staged(rows).items_to_upload;
    lemma_staged_items_are_one_per_item(db, rows, local_tree_order(db.bookmarks).len() as int);
    lemma_staged_tombstones_have_no_key(snapshots, db.deleted, db.deleted.len() as int);
    assert forall|j: int| 0 <= j < staged.len() && j != k implies (#[trigger] staged[j]).id
        != staged[k].id by {
        if j < snapshots.len() {
            assert(staged[j] == snapshots[j]);
            assert(staged[k] == snapshots[k]);
            if j < k {
                assert(snapshots[j].id != snapshots[k].id);
            } else {
                assert(snapshots[k].id != snapshots[j].id);
            }
        }
    }
}

/// Where no two local items have the same key, an item of which the merge
/// staged a snapshot, and whose snapshot the server has taken before the
/// item changed again, has no change left to go up, and the server has it.
pub proof fn lemma_what_went_up_is_settled(
    db: DbModel,
    rows: Seq<MergedRowModel>,
    records: Seq<Seq<char>>,
    uploaded_at: i64,
    k: int,
)
    requires
        db.bookmarks.len() <= usize::MAX,
        db.has_unique_keys(),
        0 <= k < db.staged(rows).items_to_upload.len(),
        names_guid(records, db.staged(rows).items_to_upload[k].guid),
        db.staged(rows).items_to_upload[k].id is Some,
    ensures
        ({
            let u = db.staged(rows).items_to_upload[k];
            let after = db.staged(rows).push_synced(records, uploaded_at).bookmarks;
            &&& local_by_id_index(db.bookmarks, u.id.unwrap()) matches Some(i) && 0 <= i
                < after.len() && after[i].guid == u.guid && after[i].sync_change_counter == 0
                && after[i].sync_status == SyncStatus::Normal
        }),
{
    let staged = db.staged(rows);
    let u = staged.items_to_upload[k];
    let snapshots = db.staged_snapshots(rows);
    let order = local_tree_order(db.bookmarks);
    lemma_staged_items_are_one_per_item(db, rows, order.len() as int);
    lemma_staged_tombstones_have_no_key(snapshots, db.deleted, db.deleted.len() as int);
    crate::local_tree::lemma_local_tree_order(db.bookmarks);
    assert(k < snapshots.len());
    assert(u == snapshots[k]);
    let j = choose|j: int|
        0 <= j < order.len() && is_snapshot_of(
            snapshots[k],
            db.bookmarks[(#[trigger] order[j]).index as int],
        );
    let i = order[j].index as int;
    assert forall|a: int| 0 <= a < i implies !local_has_id(u.id.unwrap())(
        #[trigger] db.bookmarks[a],
    ) by {
        assert(local_id()(db.bookmarks[a]) != local_id()(db.bookmarks[i]));
    }
    lemma_first_index_is(db.bookmarks, local_has_id(u.id.unwrap()), i);
    lemma_one_snapshot_is_staged_of_an_item(db, rows, k);
    lemma_push_synced_settles(staged, records, uploaded_at, k);
    lemma_push_uploads_settle_exactly(
        staged,
        records,
        uploaded_at,
        staged.items_to_upload.len() as int,
        k,
    );
}

/// Every live row of the mirror is an item of the tree that is built from
/// the mirror: the row of the synthetic root is the tree's root, and every
/// other live row is among the items below it. The builder gives every item
/// of a tree a place below the root.
pub proof fn lemma_live_rows_are_in_the_remote_tree(db: DbModel, now: i64, i: int)
    requires
        0 <= i < db.synced.len(),
        !db.synced[i].is_deleted,
        remote_root_index(db.synced) is Some,
    ensures
        exists|k: int|
            0 <= k < remote_tree_items(db, now).unwrap().len() && (#[trigger] remote_tree_items(
                db,
                now,
            ).unwrap()[k]).guid == db.synced[i].guid,
{
    broadcast use vstd::seq_lib::group_filter_ensures;

    let items = remote_tree_items(db, now).unwrap();
    let v = db.synced[i];
    if v.guid == root_guid() {
        lemma_first_index(db.synced, is_live_root());
        assert(items[0].guid == v.guid);
    } else {
        let keys = row_keys(db.synced);
        lemma_sorted_text_keys(keys);
        let key = keys[i];
        let sorted = sorted_text_keys(keys);
        assert(keys.len() == db.synced.len());
        assert(sorted.contains(keys[i]));
        let m = choose|m: int| 0 <= m < sorted.len() && sorted[m] == key;
        assert(is_descendant_key(db.synced)(sorted[m]));
        let live = sorted.filter(is_descendant_key(db.synced));
        assert(live.contains(sorted[m]));
        let j = choose|j: int| 0 <= j < live.len() && live[j] == key;
        assert(items[j + 1].guid == v.guid);
    }
}

/// An item to which the merge gives another guid keeps its key and its
/// place, and no other item changes: the children of the item are still
/// its children.
pub proof fn lemma_merged_item_keeps_its_subtree(db: DbModel, r: MergedRowModel, now: i64, i: int)
    requires
        local_side(db.bookmarks, r) == Some(i),
    ensures
        0 <= i < db.bookmarks.len(),
        db.merge_item(r, now).bookmarks.len() == db.bookmarks.len(),
        db.merge_item(r, now).bookmarks[i].guid == r.merged_guid,
        db.merge_item(r, now).bookmarks[i].id == db.bookmarks[i].id,
        db.merge_item(r, now).bookmarks[i].parent == db.bookmarks[i].parent,
        db.merge_item(r, now).bookmarks[i].position == db.bookmarks[i].position,
        forall|j: int|
            0 <= j < db.bookmarks.len() && j != i ==> #[trigger] db.merge_item(r, now).bookmarks[j]
                == db.bookmarks[j],
{
    lemma_first_index(db.bookmarks, crate::db::local_has_guid(r.local_guid.unwrap()));
}

/// Where the merge gives a local item another guid and no two local items
/// have the same guid, no local item has the old guid afterwards: the item
/// is renamed, and no second copy of it is made.
pub proof fn lemma_merged_item_is_renamed(db: DbModel, r: MergedRowModel, now: i64, i: int)
    requires
        local_side(db.bookmarks, r) == Some(i),
        has_one_entry_per_guid(db.bookmarks),
        r.local_guid != Some(r.merged_guid),
    ensures
        db.merge_item(r, now).bookmarks.len() == db.bookmarks.len(),
        db.merge_item(r, now).bookmarks[i].guid == r.merged_guid,
        forall|j: int|
            0 <= j < db.bookmarks.len() ==> (#[trigger] db.merge_item(r, now).bookmarks[j]).guid
                != r.local_guid.unwrap(),
{
    lemma_merged_item_keeps_its_subtree(db, r, now, i);
    lemma_first_index(db.bookmarks, crate::db::local_has_guid(r.local_guid.unwrap()));
    let after = db.merge_item(r, now).bookmarks;
    assert forall|j: int| 0 <= j < db.bookmarks.len() implies (#[trigger] after[j]).guid
        != r.local_guid.unwrap() by {
        if j != i {
            assert(after[j] == db.bookmarks[j]);
            if j < i {
                assert(db.bookmarks[j].guid != db.bookmarks[i].guid);
            } else {
                assert(db.bookmarks[i].guid != db.bookmarks[j].guid);
            }
        }
    }
}

/// A new local item and a new remote item that are alike have the same
/// content for the merger to compare: a bookmark and a bookmark or query with
/// the same title and URL, two folders with the same title, two separators
/// at the same position.
pub proof fn lemma_like_items_have_like_contents(
    db: DbModel,
    i: int,
    j: int,
    local: NewContentModel,
    remote: NewContentModel,
)
    requires
        0 <= i < db.bookmarks.len(),
        0 <= j < db.synced_structure.len(),
        new_local_content(db.bookmarks, db.synced, db.places, i) == Some(local),
        new_remote_content(db.synced_structure, db.synced, db.bookmarks, db.places, j) == Some(
            remote,
        ),
        ({
            let b = db.bookmarks[i];
            let v = db.synced[synced_index(db.synced, db.synced_structure[j].guid).unwrap()];
            &&& v.kind.local_type() == Some(b.typ)
            &&& text_or_empty(v.title) == text_or_empty(b.title)
            &&& url_of_place(db.places, v.place_id) == url_of_place(db.places, b.place_id)
            &&& db.synced_structure[j].position == b.position
        }),
    ensures
        local.content == remote.content,
{
}

/// Where the merge flags no item for upload, no local item has a change
/// of its own, and no item whose remote side won is older than that side,
/// no snapshot is staged.
pub proof fn lemma_nothing_changed_nothing_staged(db: DbModel, rows: Seq<MergedRowModel>, n: int)
    requires
        db.bookmarks.len() <= usize::MAX,
        0 <= n <= local_tree_order(db.bookmarks).len(),
        forall|k: int| 0 <= k < rows.len() ==> !(#[trigger] rows[k]).should_upload,
        forall|i: int| 0 <= i < db.bookmarks.len() ==> (#[trigger] db.bookmarks[i]).sync_change_counter == 0,
        forall|i: int, k: int|
            0 <= i < db.bookmarks.len() && 0 <= k < rows.len() ==> !weakly_uploaded(
                #[trigger] db.bookmarks[i],
                #[trigger] rows[k],
                db.synced,
            ),
    ensures
        staged_items(db.bookmarks, db.synced, db.places, rows, n).len() == 0,
    decreases n,
{
    if n > 0 {
        lemma_nothing_changed_nothing_staged(db, rows, n - 1);
        crate::local_tree::lemma_local_tree_order(db.bookmarks);
        let i = local_tree_order(db.bookmarks)[n - 1].index as int;
        let b = db.bookmarks[i];
        match crate::db::merged_index(rows, b.guid) {
            Some(m) => {
                lemma_first_index(rows, crate::db::merged_has_guid(b.guid));
                assert(!rows[m].should_upload);
                assert(!weakly_uploaded(db.bookmarks[i], rows[m], db.synced));
            },
            None => {},
        }
    }
}

/// Where no snapshot is staged and there is no tombstone, there is no
/// outgoing record.
pub proof fn lemma_nothing_staged_nothing_outgoing(db: DbModel, rows: Seq<MergedRowModel>)
    requires
        db.staged_snapshots(rows).len() == 0,
        db.deleted.len() == 0,
    ensures
        db.staged(rows).outgoing() == Ok::<Seq<RecordModel>, ErrorKind>(Seq::empty()),
{
    assert(db.staged(rows).items_to_upload =~= Seq::empty());
}

/// Where no two local items have the same guid, the items that the merge
/// deletes are gone once the deletions are applied: no local item has the
/// guid of a deletion, unless it is the guid of a root, which is never
/// deleted. The items that stay still have a guid each.
pub proof fn lemma_deleted_items_are_gone(
    db: DbModel,
    deletions: Seq<RemovalRowModel>,
    now: i64,
    n: int,
    j: int,
)
    requires
        has_one_entry_per_guid(db.bookmarks),
        0 <= j < n <= deletions.len(),
        !is_root_guid(deletions[j].guid),
    ensures
        has_one_entry_per_guid(db.remove_items(deletions, now, n).bookmarks),
        forall|k: int|
            0 <= k < db.remove_items(deletions, now, n).bookmarks.len() ==> (
            #[trigger] db.remove_items(deletions, now, n).bookmarks[k]).guid != deletions[j].guid,
    decreases n,
{
    lemma_removals_keep_one_entry_per_guid(db, deletions, now, n - 1);
    lemma_removals_keep_one_entry_per_guid(db, deletions, now, n);
    let before = db.remove_items(deletions, now, n - 1);
    let after = db.remove_items(deletions, now, n);
    let d = deletions[n - 1];
    if j < n - 1 {
        lemma_deleted_items_are_gone(db, deletions, now, n - 1, j);
    }
    lemma_first_index(before.bookmarks, crate::db::local_has_guid(d.guid));
    if !is_root_guid(d.guid) && local_index(before.bookmarks, d.guid) is Some {
        let i = local_index(before.bookmarks, d.guid).unwrap();
        assert forall|k: int| 0 <= k < after.bookmarks.len() implies (
        #[trigger] after.bookmarks[k]).guid != deletions[j].guid by {
            let k0 = if k < i { k } else { k + 1 };
            if j == n - 1 {
                assert(before.bookmarks[k0].guid != before.bookmarks[i].guid);
            } else {
                assert(before.bookmarks[k0].guid != deletions[j].guid);
            }
        }
    } else {
        assert(after.bookmarks == before.bookmarks);
    }
}

proof fn lemma_removals_keep_one_entry_per_guid(
    db: DbModel,
    deletions: Seq<RemovalRowModel>,
    now: i64,
    n: int,
)
    requires
        has_one_entry_per_guid(db.bookmarks),
        0 <= n <= deletions.len(),
    ensures
        has_one_entry_per_guid(db.remove_items(deletions, now, n).bookmarks),
    decreases n,
{
    if n > 0 {
        lemma_removals_keep_one_entry_per_guid(db, deletions, now, n - 1);
        let before = db.remove_items(deletions, now, n - 1);
        let after = db.remove_items(deletions, now, n);
        let d = deletions[n - 1];
        lemma_first_index(before.bookmarks, crate::db::local_has_guid(d.guid));
        if !is_root_guid(d.guid) && local_index(before.bookmarks, d.guid) is Some {
            let i = local_index(before.bookmarks, d.guid).unwrap();
            assert forall|a: int, b: int| 0 <= a < b < after.bookmarks.len() implies (
            #[trigger] after.bookmarks[a]).guid != (#[trigger] after.bookmarks[b]).guid by {
                let a0 = if a < i { a } else { a + 1 };
                let b0 = if b < i { b } else { b + 1 };
                assert(before.bookmarks[a0].guid != before.bookmarks[b0].guid);
            }
        } else {
            assert(after.bookmarks == before.bookmarks);
        }
    }
}

/// Whether no local item has a change to go up.
pub open spec fn nothing_is_pending(items: Seq<LocalItemModel>) -> bool {
    forall|i: int| 0 <= i < items.len() ==> (#[trigger] items[i]).sync_change_counter == 0
}

/// Whether the merged rows keep every item as it is: none takes its remote
/// side, and none is flagged for upload.
pub open spec fn keeps_every_item(rows: Seq<MergedRowModel>) -> bool {
    forall|k: int|
        0 <= k < rows.len() ==> !(#[trigger] rows[k]).use_remote && !rows[k].should_upload
}

proof fn lemma_kept_items_stay_settled(db: DbModel, rows: Seq<MergedRowModel>, now: i64, n: int)
    requires
        0 <= n <= rows.len(),
        nothing_is_pending(db.bookmarks),
        db.deleted.len() == 0,
        keeps_every_item(rows),
    ensures
        nothing_is_pending(db.merge_items(rows, now, n).bookmarks),
        db.merge_items(rows, now, n).bookmarks.len() == db.bookmarks.len(),
        db.merge_items(rows, now, n).deleted.len() == 0,
    decreases n,
{
    broadcast use vstd::seq_lib::group_filter_ensures;

    if n > 0 {
        lemma_kept_items_stay_settled(db, rows, now, n - 1);
        let before = db.merge_items(rows, now, n - 1);
        let r = rows[n - 1];
        assert(!r.use_remote && !r.should_upload);
        match r.local_guid {
            Some(guid) => lemma_first_index(before.bookmarks, crate::db::local_has_guid(guid)),
            None => {},
        }
        let after = before.merge_item(r, now);
        assert(after.deleted.len() <= before.deleted.len());
        assert forall|i: int| 0 <= i < after.bookmarks.len() implies (
        #[trigger] after.bookmarks[i]).sync_change_counter == 0 by {
            assert(before.bookmarks[i].sync_change_counter == 0);
        }
    }
}

proof fn lemma_placed_items_stay_settled(items: Seq<LocalItemModel>, rows: Seq<MergedRowModel>, n: int)
    requires
        0 <= n <= rows.len(),
        nothing_is_pending(items),
    ensures
        nothing_is_pending(placed_items(items, rows, n)),
        placed_items(items, rows, n).len() == items.len(),
    decreases n,
{
    if n > 0 {
        lemma_placed_items_stay_settled(items, rows, n - 1);
        let before = placed_items(items, rows, n - 1);
        let r = rows[n - 1];
        lemma_first_index(before, crate::db::local_has_guid(r.merged_guid));
        lemma_first_index(before, crate::db::local_has_guid(r.merged_parent_guid));
        let after = placed_item(before, r);
        assert forall|i: int| 0 <= i < after.len() implies (
        #[trigger] after[i]).sync_change_counter == 0 by {
            assert(before[i].sync_change_counter == 0);
        }
    }
}

/// Where no local item has a change to go up, no tombstone is left, and the
/// merger keeps every item as it is and accepts no deletion, the merge
/// stages nothing and no record goes up.
pub proof fn lemma_unchanged_merge_sends_nothing(db: DbModel, rows: Seq<MergedRowModel>, now: i64)
    requires
        db.bookmarks.len() <= usize::MAX,
        nothing_is_pending(db.bookmarks),
        db.deleted.len() == 0,
        keeps_every_item(rows),
    ensures
        db.apply_merged(rows, Seq::empty(), now).staged(rows).outgoing() == Ok::<
            Seq<RecordModel>,
            ErrorKind,
        >(Seq::empty()),
{
    lemma_kept_items_stay_settled(db, rows, now, rows.len() as int);
    let merged = db.merge_items(rows, now, rows.len() as int);
    lemma_placed_items_stay_settled(merged.bookmarks, rows, rows.len() as int);
    let after = db.apply_merged(rows, Seq::empty(), now);
    assert(after == merged.place_items(rows));
    lemma_nothing_changed_nothing_staged(
        after,
        rows,
        local_tree_order(after.bookmarks).len() as int,
    );
    lemma_nothing_staged_nothing_outgoing(after, rows);
}

/// Whether `guid` is the guid of one of the local items, or the guid that
/// one of the merged rows gives its item.
pub open spec fn is_known_guid(
    items: Seq<LocalItemModel>,
    rows: Seq<MergedRowModel>,
    guid: Seq<char>,
) -> bool {
    ||| exists|i: int| 0 <= i < items.len() && (#[trigger] items[i]).guid == guid
    ||| exists|m: int| 0 <= m < rows.len() && (#[trigger] rows[m]).merged_guid == guid
}

proof fn lemma_merging_invents_no_guid(db: DbModel, rows: Seq<MergedRowModel>, now: i64, n: int)
    requires
        0 <= n <= rows.len(),
    ensures
        forall|k: int|
            0 <= k < db.merge_items(rows, now, n).bookmarks.len() ==> is_known_guid(
                db.bookmarks,
                rows,
                (#[trigger] db.merge_items(rows, now, n).bookmarks[k]).guid,
            ),
    decreases n,
{
    if n > 0 {
        lemma_merging_invents_no_guid(db, rows, now, n - 1);
        let before = db.merge_items(rows, now, n - 1);
        let r = rows[n - 1];
        let after = before.merge_item(r, now);
        match r.local_guid {
            Some(guid) => lemma_first_index(before.bookmarks, crate::db::local_has_guid(guid)),
            None => {},
        }
        assert forall|k: int| 0 <= k < after.bookmarks.len() implies is_known_guid(
            db.bookmarks,
            rows,
            (#[trigger] after.bookmarks[k]).guid,
        ) by {
            if after.bookmarks[k].guid == r.merged_guid {
                assert(rows[n - 1].merged_guid == after.bookmarks[k].guid);
            } else {
                assert(after.bookmarks[k].guid == before.bookmarks[k].guid);
            }
        }
    } else {
        assert forall|k: int| 0 <= k < db.bookmarks.len() implies is_known_guid(
            db.bookmarks,
            rows,
            (#[trigger] db.bookmarks[k]).guid,
        ) by {}
    }
}

proof fn lemma_placing_keeps_the_guids(items: Seq<LocalItemModel>, rows: Seq<MergedRowModel>, n: int)
    requires
        0 <= n <= rows.len(),
    ensures
        placed_items(items, rows, n).len() == items.len(),
        forall|k: int|
            0 <= k < items.len() ==> (#[trigger] placed_items(items, rows, n)[k]).guid
                == items[k].guid,
    decreases n,
{
    if n > 0 {
        lemma_placing_keeps_the_guids(items, rows, n - 1);
        let before = placed_items(items, rows, n - 1);
        let r = rows[n - 1];
        lemma_first_index(before, crate::db::local_has_guid(r.merged_guid));
        lemma_first_index(before, crate::db::local_has_guid(r.merged_parent_guid));
    }
}

proof fn lemma_removing_adds_no_item(
    db: DbModel,
    deletions: Seq<RemovalRowModel>,
    now: i64,
    n: int,
)
    requires
        0 <= n <= deletions.len(),
    ensures
        forall|k: int|
            0 <= k < db.remove_items(deletions, now, n).bookmarks.len() ==> db.bookmarks.contains(
                #[trigger] db.remove_items(deletions, now, n).bookmarks[k],
            ),
    decreases n,
{
    if n > 0 {
        lemma_removing_adds_no_item(db, deletions, now, n - 1);
        let before = db.remove_items(deletions, now, n - 1);
        let d = deletions[n - 1];
        let after = before.remove_item(d, now);
        lemma_first_index(before.bookmarks, crate::db::local_has_guid(d.guid));
        assert forall|k: int| 0 <= k < after.bookmarks.len() implies db.bookmarks.contains(
            #[trigger] after.bookmarks[k],
        ) by {
            if after.bookmarks != before.bookmarks {
                let i = local_index(before.bookmarks, d.guid).unwrap();
                let k0 = if k < i { k } else { k + 1 };
                assert(after.bookmarks[k] == before.bookmarks[k0]);
            }
        }
    } else {
        assert forall|k: int| 0 <= k < db.bookmarks.len() implies db.bookmarks.contains(
            #[trigger] db.bookmarks[k],
        ) by {}
    }
}

/// Applying a merged tree invents no guid: every local item has afterwards
/// a guid that a local item had before, or the guid that a merged row gives
/// its item.
pub proof fn lemma_applying_invents_no_guid(
    db: DbModel,
    rows: Seq<MergedRowModel>,
    deletions: Seq<RemovalRowModel>,
    now: i64,
    k: int,
)
    requires
        0 <= k < db.apply_merged(rows, deletions, now).bookmarks.len(),
    ensures
        is_known_guid(db.bookmarks, rows, db.apply_merged(rows, deletions, now).bookmarks[k].guid),
{
    let merged = db.merge_items(rows, now, rows.len() as int);
    let placed = merged.place_items(rows);
    lemma_merging_invents_no_guid(db, rows, now, rows.len() as int);
    lemma_placing_keeps_the_guids(merged.bookmarks, rows, rows.len() as int);
    lemma_removing_adds_no_item(placed, deletions, now, deletions.len() as int);
    let after = db.apply_merged(rows, deletions, now);
    assert(placed.bookmarks.contains(after.bookmarks[k]));
    let k0 = choose|k0: int| 0 <= k0 < placed.bookmarks.len() && placed.bookmarks[k0]
        == after.bookmarks[k];
    assert(placed.bookmarks[k0].guid == merged.bookmarks[k0].guid);
    assert(is_known_guid(db.bookmarks, rows, merged.bookmarks[k0].guid));
}

/// Forgetting the server twice is forgetting it once.
pub proof fn lemma_reset_twice_is_reset(db: DbModel, assoc: Option<(Seq<char>, Seq<char>)>)
    ensures
        db.reset(assoc).reset(assoc) == db.reset(assoc),
{
    let once = db.reset(assoc);
    let twice = once.reset(assoc);
    lemma_reset_forgets_the_server(db, assoc);
    lemma_reset_forgets_the_server(once, assoc);
    assert(twice.bookmarks =~= once.bookmarks);
}

} // verus!
