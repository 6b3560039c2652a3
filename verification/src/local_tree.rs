//! The local tree as a list of rows: the items that hang below the synthetic
//! root, level by level, within a level folder by folder, and within a
//! folder by position.

use vstd::prelude::*;
use crate::db::{find_local_by_id, local_by_id_index};
use crate::guid::{is_root, root_guid};
use crate::order::{lemma_sorted_keys, sort_keys, sorted_keys, SortKey};
use crate::rows::{LocalItem, LocalItemModel};
use crate::seqs::{lemma_filter_step, lemma_take_all};

verus! {

/// How many steps up the search for the synthetic root goes from an item: as
/// many as there are items.
pub open spec fn search_depth(items: Seq<LocalItemModel>) -> nat {
    if items.len() <= i64::MAX {
        items.len()
    } else {
        i64::MAX as nat
    }
}

/// The index of the parent of the item at `i`.
pub open spec fn parent_index(items: Seq<LocalItemModel>, i: int) -> Option<int> {
    match items[i].parent {
        Some(id) => local_by_id_index(items, id),
        None => None,
    }
}

/// How far the item at `i` is below the synthetic root, if going from
/// parent to parent reaches the root within `fuel` steps.
pub open spec fn depth_of(items: Seq<LocalItemModel>, i: int, fuel: nat) -> Option<int>
    decreases fuel,
{
    if !(0 <= i < items.len()) {
        None
    } else if items[i].guid == root_guid() {
        Some(0)
    } else if fuel == 0 {
        None
    } else {
        match parent_index(items, i) {
            Some(p) => match depth_of(items, p, (fuel - 1) as nat) {
                Some(d) => Some(d + 1),
                None => None,
            },
            None => None,
        }
    }
}

/// The level of the item at `i` in the local tree, or nothing where the
/// item does not hang below the synthetic root.
pub open spec fn level_of(items: Seq<LocalItemModel>, i: int) -> Option<int> {
    depth_of(items, i, search_depth(items))
}

/// The key that orders the item at `i`: its level, the key of its parent
/// and its position. An item outside the tree has the level -1.
pub open spec fn tree_key(items: Seq<LocalItemModel>, i: int) -> SortKey {
    SortKey {
        major: match level_of(items, i) {
            Some(d) => d as i64,
            None => -1i64,
        },
        minor: match items[i].parent {
            Some(id) => id,
            None => 0,
        },
        rank: items[i].position,
        index: i as usize,
    }
}

/// The keys of all local items.
pub open spec fn tree_keys(items: Seq<LocalItemModel>) -> Seq<SortKey> {
    Seq::new(items.len(), |i: int| tree_key(items, i))
}

/// The property of belonging to an item in the tree.
pub open spec fn is_rooted() -> spec_fn(SortKey) -> bool {
    |k: SortKey| k.major >= 0
}

/// The keys of the items of the local tree, in the tree's order: the
/// synthetic root first.
pub open spec fn local_tree_order(items: Seq<LocalItemModel>) -> Seq<SortKey> {
    sorted_keys(tree_keys(items).filter(is_rooted()))
}

/// Every key of the tree's order is the key of an item in the tree.
pub proof fn lemma_local_tree_order(items: Seq<LocalItemModel>)
    requires
        items.len() <= usize::MAX,
    ensures
        forall|j: int|
            0 <= j < local_tree_order(items).len() ==> {
                let k = #[trigger] local_tree_order(items)[j];
                &&& 0 <= k.index < items.len()
                &&& k == tree_key(items, k.index as int)
                &&& level_of(items, k.index as int) is Some
            },
{
    broadcast use vstd::seq_lib::group_filter_ensures;

    let keys = tree_keys(items);
    let rooted = keys.filter(is_rooted());
    lemma_sorted_keys(rooted);
    assert forall|j: int| 0 <= j < local_tree_order(items).len() implies {
        let k = #[trigger] local_tree_order(items)[j];
        &&& 0 <= k.index < items.len()
        &&& k == tree_key(items, k.index as int)
        &&& level_of(items, k.index as int) is Some
    } by {
        let k = local_tree_order(items)[j];
        assert(rooted.contains(k));
        let a = choose|a: int| 0 <= a < rooted.len() && rooted[a] == k;
        assert(is_rooted()(rooted[a]));
        rooted.lemma_filter_contains_rev(is_rooted(), k);
        keys.lemma_filter_contains_rev(is_rooted(), k);
        assert(keys.contains(k));
        let b = choose|b: int| 0 <= b < keys.len() && keys[b] == k;
        assert(k.index == b);
    }
}

/// The depth within `fuel` steps is at most `fuel`.
pub proof fn lemma_depth_bound(items: Seq<LocalItemModel>, i: int, fuel: nat)
    ensures
        depth_of(items, i, fuel) matches Some(d) ==> 0 <= d <= fuel,
    decreases fuel,
{
    if 0 <= i < items.len() && items[i].guid != root_guid() && fuel > 0 {
        match parent_index(items, i) {
            Some(p) => lemma_depth_bound(items, p, (fuel - 1) as nat),
            None => {},
        }
    }
}

/// The index of the parent of the item at `i`.
pub fn find_parent(items: &Vec<LocalItem>, i: usize) -> (r: Option<usize>)
    requires
        i < items.len(),
    ensures
        r matches Some(p) ==> p < items.len(),
        parent_index(items.deep_view(), i as int) == (match r {
            Some(p) => Some(p as int),
            None => None,
        }),
{
    match items[i].parent {
        Some(id) => find_local_by_id(items, id),
        None => None,
    }
}

/// The level with `up` more steps above it.
pub open spec fn raised(depth: Option<int>, up: int) -> Option<int> {
    match depth {
        Some(d) => Some(d + up),
        None => None,
    }
}

/// The level of the item at `i` in the local tree.
pub fn level(items: &Vec<LocalItem>, i: usize) -> (r: Option<i64>)
    requires
        i < items.len(),
    ensures
        level_of(items.deep_view(), i as int) == (match r {
            Some(d) => Some(d as int),
            None => None,
        }),
        r matches Some(d) ==> d >= 0,
{
    let ghost all = items.deep_view();
    let ghost fuel = search_depth(all);
    let limit: u64 = if items.len() as u64 <= 9_223_372_036_854_775_807u64 {
        items.len() as u64
    } else {
        9_223_372_036_854_775_807u64
    };
    let mut cur: usize = i;
    let mut steps: u64 = 0;
    loop
        invariant
            all == items.deep_view(),
            fuel == search_depth(all),
            limit == fuel,
            cur < items.len(),
            steps <= limit,
            level_of(all, i as int) == raised(
                depth_of(all, cur as int, (fuel - steps) as nat),
                steps as int,
            ),
        decreases limit - steps,
    {
        if is_root(items[cur].guid.as_str()) {
            return Some(steps as i64);
        }
        if steps == limit {
            return None;
        }
        match find_parent(items, cur) {
            Some(p) => {
                cur = p;
                steps += 1;
            },
            None => {
                return None;
            },
        }
    }
}

/// The keys of the items of the local tree, in the tree's order.
pub fn local_tree_keys(items: &Vec<LocalItem>) -> (r: Vec<SortKey>)
    ensures
        r@ == local_tree_order(items.deep_view()),
{
    let ghost all = items.deep_view();
    let ghost keys = tree_keys(all);
    let mut rooted: Vec<SortKey> = Vec::new();
    let mut i: usize = 0;
    while i < items.len()
        invariant
            i <= items.len(),
            all == items.deep_view(),
            keys == tree_keys(all),
            rooted@ == keys.take(i as int).filter(is_rooted()),
        decreases items.len() - i,
    {
        proof {
            lemma_filter_step(keys, is_rooted(), i as int);
            lemma_depth_bound(all, i as int, search_depth(all));
        }
        match level(items, i) {
            Some(d) => {
                rooted.push(
                    SortKey {
                        major: d,
                        minor: match items[i].parent {
                            Some(id) => id,
                            None => 0,
                        },
                        rank: items[i].position,
                        index: i,
                    },
                );
            },
            None => {},
        }
        i += 1;
    }
    proof {
        lemma_take_all(keys);
    }
    sort_keys(&rooted)
}

} // verus!
