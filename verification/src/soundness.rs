//! What makes the local tree a tree.

use vstd::prelude::*;
use crate::db::{local_by_id_index, local_has_id, DbModel};
use crate::guid::{lemma_root_guids_distinct, root_guid, BookmarkRootGuid};
use crate::roots::local_root;
use crate::local_tree::{depth_of, find_parent, level, level_of, parent_index, search_depth};
use crate::rows::{LocalItem, LocalItemModel};
use crate::types::{BookmarkType, ConnectionType};
use crate::seqs::{lemma_first_index, lemma_first_index_is, lemma_first_index_none};

verus! {

/// Whether every local item hangs below the synthetic root.
pub open spec fn is_fully_rooted(items: Seq<LocalItemModel>) -> bool {
    forall|i: int| 0 <= i < items.len() ==> level_of(items, i) is Some
}

/// Whether no two local items have the same guid.
pub open spec fn has_one_entry_per_guid(items: Seq<LocalItemModel>) -> bool {
    forall|i: int, j: int|
        0 <= i < j < items.len() ==> (#[trigger] items[i]).guid != (#[trigger] items[j]).guid
}

/// Whether every local item that has a parent has a folder for it.
pub open spec fn has_folders_for_parents(items: Seq<LocalItemModel>) -> bool {
    forall|i: int|
        0 <= i < items.len() ==> (#[trigger] parent_index(items, i) matches Some(p)
            ==> items[p].typ == BookmarkType::Folder)
}

impl DbModel {
    /// Whether the local tree is sound: fully rooted, with a folder for
    /// every parent and one entry per guid.
    pub open spec fn local_tree_is_sound(self) -> bool {
        is_fully_rooted(self.bookmarks) && has_folders_for_parents(self.bookmarks)
            && has_one_entry_per_guid(self.bookmarks)
    }
}

fn all_parents_are_folders(items: &Vec<LocalItem>) -> (r: bool)
    ensures
        r == has_folders_for_parents(items.deep_view()),
{
    let ghost all = items.deep_view();
    let mut i: usize = 0;
    while i < items.len()
        invariant
            i <= items.len(),
            all == items.deep_view(),
            forall|j: int|
                0 <= j < i ==> (#[trigger] parent_index(all, j) matches Some(p) ==> all[p].typ
                    == BookmarkType::Folder),
        decreases items.len() - i,
    {
        match find_parent(items, i) {
            Some(p) => {
                match items[p].typ {
                    BookmarkType::Folder => {},
                    _ => {
                        assert(parent_index(all, i as int) == Some(p as int));
                        return false;
                    },
                }
            },
            None => {},
        }
        i += 1;
    }
    true
}

fn all_rooted(items: &Vec<LocalItem>) -> (r: bool)
    ensures
        r == is_fully_rooted(items.deep_view()),
{
    let mut i: usize = 0;
    while i < items.len()
        invariant
            i <= items.len(),
            forall|j: int| 0 <= j < i ==> level_of(items.deep_view(), j) is Some,
        decreases items.len() - i,
    {
        if level(items, i).is_none() {
            return false;
        }
        i += 1;
    }
    true
}

fn all_guids_differ(items: &Vec<LocalItem>) -> (r: bool)
    ensures
        r == has_one_entry_per_guid(items.deep_view()),
{
    let ghost all = items.deep_view();
    let mut j: usize = 0;
    while j < items.len()
        invariant
            j <= items.len(),
            all == items.deep_view(),
            forall|a: int, b: int|
                0 <= a < b < j ==> (#[trigger] all[a]).guid != (#[trigger] all[b]).guid,
        decreases items.len() - j,
    {
        let mut i: usize = 0;
        while i < j
            invariant
                i <= j,
                j < items.len(),
                all == items.deep_view(),
                forall|a: int| 0 <= a < i ==> (#[trigger] all[a]).guid != all[j as int].guid,
            decreases j - i,
        {
            if items[i].guid == items[j].guid {
                assert(all[i as int].guid == all[j as int].guid);
                return false;
            }
            i += 1;
        }
        j += 1;
    }
    true
}

/// Whether the local tree is sound: fully rooted, with a folder for every
/// parent and one entry per guid.
pub fn local_tree_is_sound(items: &Vec<LocalItem>) -> (r: bool)
    ensures
        r == (is_fully_rooted(items.deep_view()) && has_folders_for_parents(items.deep_view())
            && has_one_entry_per_guid(items.deep_view())),
{
    all_rooted(items) && all_parents_are_folders(items) && all_guids_differ(items)
}

/// Whether two lists of local items hold the same tree: the same items in
/// the same places, each with the same key, guid, parent and type.
pub open spec fn same_structure(a: Seq<LocalItemModel>, b: Seq<LocalItemModel>) -> bool {
    &&& a.len() == b.len()
    &&& forall|i: int|
        0 <= i < a.len() ==> (#[trigger] a[i]).id == b[i].id && a[i].guid == b[i].guid
            && a[i].parent == b[i].parent && a[i].typ == b[i].typ
}

proof fn lemma_same_parents(a: Seq<LocalItemModel>, b: Seq<LocalItemModel>, i: int)
    requires
        same_structure(a, b),
        0 <= i < a.len(),
    ensures
        parent_index(a, i) == parent_index(b, i),
        parent_index(a, i) matches Some(p) ==> 0 <= p < a.len(),
{
    match a[i].parent {
        Some(id) => {
            let p = local_has_id(id);
            lemma_first_index(b, p);
            match local_by_id_index(b, id) {
                Some(k) => {
                    assert(p(a[k]));
                    assert forall|j: int| 0 <= j < k implies !p(#[trigger] a[j]) by {
                        assert(!p(b[j]));
                    }
                    lemma_first_index_is(a, p, k);
                },
                None => {
                    assert forall|j: int| 0 <= j < a.len() implies !p(#[trigger] a[j]) by {
                        assert(!p(b[j]));
                    }
                    lemma_first_index_none(a, p);
                },
            }
        },
        None => {},
    }
}

/// The level of an item depends on the keys, the guids and the parents of
/// the items alone.
pub proof fn lemma_structure_decides_depth(
    a: Seq<LocalItemModel>,
    b: Seq<LocalItemModel>,
    i: int,
    fuel: nat,
)
    requires
        same_structure(a, b),
    ensures
        depth_of(a, i, fuel) == depth_of(b, i, fuel),
    decreases fuel,
{
    if 0 <= i < a.len() && a[i].guid != root_guid() && fuel > 0 {
        lemma_same_parents(a, b, i);
        match parent_index(a, i) {
            Some(p) => lemma_structure_decides_depth(a, b, p, (fuel - 1) as nat),
            None => {},
        }
    }
}

/// Two lists of local items that hold the same tree are both sound, or
/// neither is.
pub proof fn lemma_structure_decides_soundness(a: Seq<LocalItemModel>, b: Seq<LocalItemModel>)
    requires
        same_structure(a, b),
    ensures
        is_fully_rooted(a) == is_fully_rooted(b),
        has_folders_for_parents(a) == has_folders_for_parents(b),
        has_one_entry_per_guid(a) == has_one_entry_per_guid(b),
{
    assert forall|i: int| 0 <= i < a.len() implies level_of(a, i) == level_of(b, i) by {
        lemma_structure_decides_depth(a, b, i, search_depth(a));
    }
    assert forall|i: int| 0 <= i < a.len() implies #[trigger] parent_index(a, i) == parent_index(
        b,
        i,
    ) && (parent_index(a, i) matches Some(p) ==> a[p].typ == b[p].typ) by {
        lemma_same_parents(a, b, i);
    }
    if has_folders_for_parents(a) {
        assert forall|i: int| 0 <= i < b.len() implies (#[trigger] parent_index(b, i) matches Some(
            p,
        ) ==> b[p].typ == BookmarkType::Folder) by {
            assert(parent_index(a, i) == parent_index(b, i));
        }
    }
    if has_folders_for_parents(b) {
        assert forall|i: int| 0 <= i < a.len() implies (#[trigger] parent_index(a, i) matches Some(
            p,
        ) ==> a[p].typ == BookmarkType::Folder) by {
            assert(parent_index(a, i) == parent_index(b, i));
        }
    }
    if has_one_entry_per_guid(a) {
        assert forall|i: int, j: int| 0 <= i < j < b.len() implies (#[trigger] b[i]).guid != (
        #[trigger] b[j]).guid by {
            assert(a[i].guid != a[j].guid);
        }
    }
    if has_one_entry_per_guid(b) {
        assert forall|i: int, j: int| 0 <= i < j < a.len() implies (#[trigger] a[i]).guid != (
        #[trigger] a[j]).guid by {
            assert(b[i].guid != b[j].guid);
        }
    }
}

/// The local tree of a store that holds the five roots and nothing else is
/// sound.
pub proof fn lemma_new_store_is_sound(conn_type: ConnectionType)
    ensures
        DbModel::empty(conn_type).local_tree_is_sound(),
{
    lemma_root_guids_distinct();
    let items = DbModel::empty(conn_type).bookmarks;
    assert(items.len() == 5);
    assert(items[0] == local_root(BookmarkRootGuid::Root));
    assert(items[1] == local_root(BookmarkRootGuid::Menu));
    assert(items[2] == local_root(BookmarkRootGuid::Toolbar));
    assert(items[3] == local_root(BookmarkRootGuid::Unfiled));
    assert(items[4] == local_root(BookmarkRootGuid::Mobile));
    lemma_first_index_is(items, local_has_id(1i64), 0);
    assert(depth_of(items, 0, 4) == Some(0int));
    assert forall|i: int| 0 <= i < items.len() implies level_of(items, i) is Some by {
        if i > 0 {
            assert(parent_index(items, i) == Some(0int));
            assert(depth_of(items, i, 5) == Some(1int));
        }
    }
    assert forall|i: int| 0 <= i < items.len() implies (#[trigger] parent_index(items, i) matches Some(
        p,
    ) ==> items[p].typ == BookmarkType::Folder) by {
        if i > 0 {
            assert(parent_index(items, i) == Some(0int));
        }
    }
}

/// `reset` leaves the local tree as sound as it was: the local content is
/// fully preserved.
pub proof fn lemma_reset_keeps_the_local_tree(db: DbModel, assoc: Option<(Seq<char>, Seq<char>)>)
    ensures
        same_structure(db.reset(assoc).bookmarks, db.bookmarks),
        db.reset(assoc).local_tree_is_sound() == db.local_tree_is_sound(),
{
    crate::laws::lemma_reset_forgets_the_server(db, assoc);
    lemma_structure_decides_soundness(db.reset(assoc).bookmarks, db.bookmarks);
}

proof fn lemma_push_uploads_keep_the_local_tree(
    db: DbModel,
    records: Seq<Seq<char>>,
    uploaded_at: i64,
    n: int,
)
    ensures
        same_structure(db.push_uploads(records, uploaded_at, n).bookmarks, db.bookmarks),
    decreases n,
{
    if n > 0 {
        lemma_push_uploads_keep_the_local_tree(db, records, uploaded_at, n - 1);
        let before = db.push_uploads(records, uploaded_at, n - 1);
        let u = db.items_to_upload[n - 1];
        if u.id is Some {
            lemma_first_index(before.bookmarks, local_has_id(u.id.unwrap()));
        }
    }
}

/// Settling what went up leaves the local tree as sound as it was.
pub proof fn lemma_push_synced_keeps_the_local_tree(
    db: DbModel,
    records: Seq<Seq<char>>,
    uploaded_at: i64,
)
    ensures
        same_structure(db.push_synced(records, uploaded_at).bookmarks, db.bookmarks),
        db.push_synced(records, uploaded_at).local_tree_is_sound() == db.local_tree_is_sound(),
{
    lemma_push_uploads_keep_the_local_tree(
        db,
        records,
        uploaded_at,
        db.items_to_upload.len() as int,
    );
    lemma_structure_decides_soundness(db.push_synced(records, uploaded_at).bookmarks, db.bookmarks);
}

} // verus!
