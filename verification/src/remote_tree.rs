//! The mirror as the rows of a tree: the live rows with the parent that
//! each names, in the order of their guids, and the children that the
//! folders list, folder by folder in the order of the folders' guids, and
//! within a folder in the order of their positions.

use vstd::prelude::*;
use crate::guid::{is_root, root_guid};
use crate::merger::{remote_tree_item, Merger};
use crate::rows::{StructureRow, StructureRowModel, SyncedItem, SyncedItemModel};
use crate::seqs::{
    first_index, lemma_filter_step, lemma_first_index_is, lemma_first_index_none, lemma_take_all,
};
use crate::text::clone_opt_string;
use crate::text_order::{
    lemma_sorted_text_keys, sort_text_keys, sorted_text_keys, TextKey, TextKeyModel,
};
use crate::tree::{TreeItem, TreeItemModel};

verus! {

/// The property of being the live row of the synthetic root.
pub open spec fn is_live_root() -> spec_fn(SyncedItemModel) -> bool {
    |v: SyncedItemModel| !v.is_deleted && v.guid == root_guid()
}

/// The property of being a live row of another item than the synthetic root.
pub open spec fn is_live_descendant() -> spec_fn(SyncedItemModel) -> bool {
    |v: SyncedItemModel| !v.is_deleted && v.guid != root_guid()
}

/// The property of being a tombstone that has yet to be merged.
pub open spec fn is_unmerged_tombstone() -> spec_fn(SyncedItemModel) -> bool {
    |v: SyncedItemModel| v.is_deleted && v.needs_merge
}

/// The index of the mirror's live row for the synthetic root.
pub open spec fn remote_root_index(synced: Seq<SyncedItemModel>) -> Option<int> {
    first_index(synced, is_live_root())
}

/// An item of the mirror below the root, with the parent that its own
/// record names.
#[derive(Debug)]
pub struct RemoteTreeRow {
    pub item: TreeItem,
    pub parent_guid: Option<String>,
}

/// What a `RemoteTreeRow` says.
pub ghost struct RemoteTreeRowModel {
    pub item: TreeItemModel,
    pub parent_guid: Option<Seq<char>>,
}

impl DeepView for RemoteTreeRow {
    type V = RemoteTreeRowModel;

    open spec fn deep_view(&self) -> RemoteTreeRowModel {
        RemoteTreeRowModel {
            item: self.item.deep_view(),
            parent_guid: self.parent_guid.deep_view(),
        }
    }
}

/// A child as a folder's record lists it.
#[derive(Debug)]
pub struct RemoteEdge {
    pub child_guid: String,
    pub parent_guid: String,
}

/// What a `RemoteEdge` says.
pub ghost struct RemoteEdgeModel {
    pub child_guid: Seq<char>,
    pub parent_guid: Seq<char>,
}

impl DeepView for RemoteEdge {
    type V = RemoteEdgeModel;

    open spec fn deep_view(&self) -> RemoteEdgeModel {
        RemoteEdgeModel { child_guid: self.child_guid@, parent_guid: self.parent_guid@ }
    }
}

/// The keys that order the rows of the mirror by guid.
pub open spec fn row_keys(synced: Seq<SyncedItemModel>) -> Seq<TextKeyModel> {
    Seq::new(
        synced.len(),
        |i: int| TextKeyModel { text: synced[i].guid, number: 0, index: i },
    )
}

/// The property of standing for a live row of another item than the
/// synthetic root.
pub open spec fn is_descendant_key(synced: Seq<SyncedItemModel>) -> spec_fn(TextKeyModel) -> bool {
    |k: TextKeyModel| is_live_descendant()(synced[k.index])
}

/// The row of the tree that a key stands for.
pub open spec fn row_at(synced: Seq<SyncedItemModel>, now: i64) -> spec_fn(
    TextKeyModel,
) -> RemoteTreeRowModel {
    |k: TextKeyModel|
        RemoteTreeRowModel {
            item: remote_tree_item(synced[k.index], now),
            parent_guid: synced[k.index].parent_guid,
        }
}

/// The live rows of the mirror below the root, as the merger sees them at
/// the server's time `now`, in the order of their guids.
pub open spec fn remote_tree_rows(synced: Seq<SyncedItemModel>, now: i64) -> Seq<RemoteTreeRowModel> {
    sorted_text_keys(row_keys(synced)).filter(is_descendant_key(synced)).map_values(
        row_at(synced, now),
    )
}

/// The keys that order the listed children by the guid of the folder that
/// lists them, and then by position.
pub open spec fn edge_keys(structure: Seq<StructureRowModel>) -> Seq<TextKeyModel> {
    Seq::new(
        structure.len(),
        |i: int|
            TextKeyModel {
                text: structure[i].parent_guid,
                number: structure[i].position,
                index: i,
            },
    )
}

/// The property of standing for a listed child other than the synthetic
/// root.
pub open spec fn lists_descendant(structure: Seq<StructureRowModel>) -> spec_fn(
    TextKeyModel,
) -> bool {
    |k: TextKeyModel| structure[k.index].guid != root_guid()
}

/// The listed child that a key stands for.
pub open spec fn edge_at(structure: Seq<StructureRowModel>) -> spec_fn(
    TextKeyModel,
) -> RemoteEdgeModel {
    |k: TextKeyModel|
        RemoteEdgeModel {
            child_guid: structure[k.index].guid,
            parent_guid: structure[k.index].parent_guid,
        }
}

/// The children that the folders of the mirror list, but for the synthetic
/// root: folder by folder in the order of the folders' guids, and within a
/// folder in the order of their positions.
pub open spec fn remote_tree_edges(structure: Seq<StructureRowModel>) -> Seq<RemoteEdgeModel> {
    sorted_text_keys(edge_keys(structure)).filter(lists_descendant(structure)).map_values(
        edge_at(structure),
    )
}

/// The guids of the mirror's tombstones that have yet to be merged.
pub open spec fn remote_deletions(synced: Seq<SyncedItemModel>) -> Seq<Seq<char>> {
    synced.filter(is_unmerged_tombstone()).map_values(|v: SyncedItemModel| v.guid)
}

/// The index of the mirror's live row for the synthetic root.
pub fn find_remote_root(synced: &Vec<SyncedItem>) -> (r: Option<usize>)
    ensures
        r matches Some(i) ==> i < synced.len() && synced[i as int].guid@ == root_guid(),
        remote_root_index(synced.deep_view()) == (match r {
            Some(i) => Some(i as int),
            None => None,
        }),
{
    let ghost p = is_live_root();
    let ghost s = synced.deep_view();
    let mut i: usize = 0;
    while i < synced.len()
        invariant
            i <= synced.len(),
            s == synced.deep_view(),
            p == is_live_root(),
            forall|j: int| 0 <= j < i ==> !p(#[trigger] s[j]),
        decreases synced.len() - i,
    {
        if !synced[i].is_deleted && is_root(synced[i].guid.as_str()) {
            proof {
                lemma_first_index_is(s, p, i as int);
            }
            return Some(i);
        }
        i += 1;
    }
    proof {
        lemma_first_index_none(s, p);
    }
    None
}

impl Merger {
    /// The live rows of the mirror below the root, as the merger sees them,
    /// in the order of their guids.
    pub fn remote_tree_rows(&self, synced: &Vec<SyncedItem>) -> (rows: Vec<RemoteTreeRow>)
        ensures
            rows.deep_view() == remote_tree_rows(synced.deep_view(), self.remote_time.0),
    {
        let ghost all = synced.deep_view();
        let ghost now = self.remote_time.0;
        let mut keys: Vec<TextKey> = Vec::new();
        let mut i: usize = 0;
        while i < synced.len()
            invariant
                i <= synced.len(),
                all == synced.deep_view(),
                keys.len() == i,
                forall|j: int| 0 <= j < i ==> (#[trigger] keys[j]).deep_view() == row_keys(all)[j],
            decreases synced.len() - i,
        {
            keys.push(TextKey { text: synced[i].guid.clone(), number: 0, index: i });
            i += 1;
        }
        assert(keys.deep_view() =~= row_keys(all));
        let sorted = sort_text_keys(&keys);
        proof {
            lemma_sorted_text_keys(keys.deep_view());
        }
        let ghost order = sorted.deep_view();
        let mut rows: Vec<RemoteTreeRow> = Vec::new();
        assert(rows.deep_view() =~= Seq::empty());
        let mut n: usize = 0;
        while n < sorted.len()
            invariant
                n <= sorted.len(),
                all == synced.deep_view(),
                now == self.remote_time.0,
                order == sorted.deep_view(),
                order == sorted_text_keys(row_keys(all)),
                order.len() == all.len(),
                forall|j: int| 0 <= j < order.len() ==> row_keys(all).contains(#[trigger] order[j]),
                rows.deep_view() == order.take(n as int).filter(is_descendant_key(all)).map_values(
                    row_at(all, now),
                ),
            decreases sorted.len() - n,
        {
            proof {
                lemma_filter_step(order, is_descendant_key(all), n as int);
            }
            let ghost before = rows.deep_view();
            let at = sorted[n].index;
            assert(order[n as int] == sorted[n as int].deep_view());
            assert(row_keys(all).contains(order[n as int]));
            let ghost j = choose|j: int| 0 <= j < all.len() && row_keys(all)[j] == order[n as int];
            assert(at == j);
            if !synced[at].is_deleted && !is_root(synced[at].guid.as_str()) {
                rows.push(
                    RemoteTreeRow {
                        item: self.remote_row_to_item(&synced[at]),
                        parent_guid: clone_opt_string(&synced[at].parent_guid),
                    },
                );
                assert(rows.deep_view() =~= before.push(row_at(all, now)(order[n as int])));
            }
            assert(rows.deep_view() =~= order.take(n + 1).filter(
                is_descendant_key(all),
            ).map_values(row_at(all, now)));
            n += 1;
        }
        proof {
            lemma_take_all(order);
        }
        rows
    }
}

/// The children that the folders of the mirror list, but for the synthetic
/// root: folder by folder in the order of the folders' guids, and within a
/// folder in the order of their positions.
pub fn remote_edges(structure: &Vec<StructureRow>) -> (edges: Vec<RemoteEdge>)
    ensures
        edges.deep_view() == remote_tree_edges(structure.deep_view()),
{
    let ghost all = structure.deep_view();
    let mut keys: Vec<TextKey> = Vec::new();
    let mut i: usize = 0;
    while i < structure.len()
        invariant
            i <= structure.len(),
            all == structure.deep_view(),
            keys.len() == i,
            forall|j: int| 0 <= j < i ==> (#[trigger] keys[j]).deep_view() == edge_keys(all)[j],
        decreases structure.len() - i,
    {
        keys.push(
            TextKey {
                text: structure[i].parent_guid.clone(),
                number: structure[i].position,
                index: i,
            },
        );
        i += 1;
    }
    assert(keys.deep_view() =~= edge_keys(all));
    let sorted = sort_text_keys(&keys);
    proof {
        lemma_sorted_text_keys(keys.deep_view());
    }
    let ghost order = sorted.deep_view();
    let mut edges: Vec<RemoteEdge> = Vec::new();
    assert(edges.deep_view() =~= Seq::empty());
    let mut n: usize = 0;
    while n < sorted.len()
        invariant
            n <= sorted.len(),
            all == structure.deep_view(),
            order == sorted.deep_view(),
            order == sorted_text_keys(edge_keys(all)),
            order.len() == all.len(),
            forall|j: int| 0 <= j < order.len() ==> edge_keys(all).contains(#[trigger] order[j]),
            edges.deep_view() == order.take(n as int).filter(lists_descendant(all)).map_values(
                edge_at(all),
            ),
        decreases sorted.len() - n,
    {
        proof {
            lemma_filter_step(order, lists_descendant(all), n as int);
        }
        let ghost before = edges.deep_view();
        let at = sorted[n].index;
        assert(order[n as int] == sorted[n as int].deep_view());
        assert(edge_keys(all).contains(order[n as int]));
        let ghost j = choose|j: int| 0 <= j < all.len() && edge_keys(all)[j] == order[n as int];
        assert(at == j);
        if !is_root(structure[at].guid.as_str()) {
            edges.push(
                RemoteEdge {
                    child_guid: structure[at].guid.clone(),
                    parent_guid: structure[at].parent_guid.clone(),
                },
            );
            assert(edges.deep_view() =~= before.push(edge_at(all)(order[n as int])));
        }
        assert(edges.deep_view() =~= order.take(n + 1).filter(lists_descendant(all)).map_values(
            edge_at(all),
        ));
        n += 1;
    }
    proof {
        lemma_take_all(order);
    }
    edges
}

/// The guids of the mirror's tombstones that have yet to be merged.
pub fn remote_tombstones(synced: &Vec<SyncedItem>) -> (guids: Vec<String>)
    ensures
        guids.deep_view() == remote_deletions(synced.deep_view()),
{
    let ghost all = synced.deep_view();
    let mut guids: Vec<String> = Vec::new();
    assert(guids.deep_view() =~= Seq::empty());
    let mut n: usize = 0;
    while n < synced.len()
        invariant
            n <= synced.len(),
            all == synced.deep_view(),
            guids.deep_view() == all.take(n as int).filter(is_unmerged_tombstone()).map_values(
                |v: SyncedItemModel| v.guid,
            ),
        decreases synced.len() - n,
    {
        proof {
            lemma_filter_step(all, is_unmerged_tombstone(), n as int);
        }
        let ghost before = guids.deep_view();
        if synced[n].is_deleted && synced[n].needs_merge {
            guids.push(synced[n].guid.clone());
            assert(guids.deep_view() =~= before.push(all[n as int].guid));
        }
        assert(guids.deep_view() =~= all.take(n + 1).filter(is_unmerged_tombstone()).map_values(
            |v: SyncedItemModel| v.guid,
        ));
        n += 1;
    }
    proof {
        lemma_take_all(all);
    }
    guids
}

} // verus!
