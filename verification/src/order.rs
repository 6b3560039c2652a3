//! Putting rows in order. A table keeps its rows as they came; where an
//! order is asked for, each row gets a key of three numbers and its index,
//! and the keys are sorted.

use vstd::prelude::*;
use vstd::relations::{sorted_by, total_ordering};
use vstd::seq_lib::lemma_sorted_unique;

verus! {

/// The key by which a row is ordered: three numbers, the first counting
/// most, and the row's index in its table, which counts last so that no two
/// keys of one table are equal.
#[derive(Clone, Copy, Debug, PartialEq, Eq, Structural)]
pub struct SortKey {
    pub major: i64,
    pub minor: i64,
    pub rank: i64,
    pub index: usize,
}

/// Whether `a` comes no later than `b`.
pub open spec fn key_leq(a: SortKey, b: SortKey) -> bool {
    a.major < b.major || (a.major == b.major && (a.minor < b.minor || (a.minor == b.minor && (
    a.rank < b.rank || (a.rank == b.rank && a.index <= b.index)))))
}

/// The order of keys.
pub open spec fn by_key() -> spec_fn(SortKey, SortKey) -> bool {
    |a: SortKey, b: SortKey| key_leq(a, b)
}

/// The keys in ascending order.
pub open spec fn sorted_keys(keys: Seq<SortKey>) -> Seq<SortKey> {
    keys.sort_by(by_key())
}

/// The order of keys is total.
pub proof fn lemma_by_key_total()
    ensures
        total_ordering(by_key()),
{
    let r = by_key();
    assert forall|x: SortKey, y: SortKey| #[trigger] r(x, y) && #[trigger] r(y, x) implies x
        == y by {}
    assert forall|x: SortKey, y: SortKey, z: SortKey| #[trigger]
        r(x, y) && #[trigger] r(y, z) implies r(x, z) by {}
    assert forall|x: SortKey, y: SortKey| #[trigger] r(x, y) || #[trigger] r(y, x) by {}
    assert forall|x: SortKey| #[trigger] r(x, x) by {}
}

/// What sorting keeps: every sorted key is one of the keys, every key is
/// among the sorted ones, and none is lost or made.
pub proof fn lemma_sorted_keys(keys: Seq<SortKey>)
    ensures
        sorted_by(sorted_keys(keys), by_key()),
        sorted_keys(keys).to_multiset() == keys.to_multiset(),
        sorted_keys(keys).len() == keys.len(),
        forall|i: int|
            0 <= i < keys.len() ==> keys.contains(#[trigger] sorted_keys(keys)[i]),
        forall|i: int| 0 <= i < keys.len() ==> sorted_keys(keys).contains(#[trigger] keys[i]),
{
    broadcast use vstd::seq_lib::group_to_multiset_ensures;

    lemma_by_key_total();
    keys.lemma_sort_by_ensures(by_key());
    let sorted = sorted_keys(keys);
    assert(sorted.to_multiset().len() == keys.to_multiset().len());
    assert forall|i: int| 0 <= i < keys.len() implies keys.contains(#[trigger] sorted[i]) by {
        assert(sorted.to_multiset().contains(sorted[i]));
    }
    assert forall|i: int| 0 <= i < keys.len() implies sorted.contains(#[trigger] keys[i]) by {
        assert(keys.to_multiset().contains(keys[i]));
    }
}

/// Whether `a` comes no later than `b`.
pub fn key_le(a: &SortKey, b: &SortKey) -> (r: bool)
    ensures
        r == key_leq(*a, *b),
{
    a.major < b.major || (a.major == b.major && (a.minor < b.minor || (a.minor == b.minor && (
    a.rank < b.rank || (a.rank == b.rank && a.index <= b.index)))))
}

/// The keys in ascending order.
pub fn sort_keys(keys: &Vec<SortKey>) -> (out: Vec<SortKey>)
    ensures
        out@ == sorted_keys(keys@),
{
    broadcast use vstd::seq_lib::group_to_multiset_ensures;

    let mut out: Vec<SortKey> = Vec::new();
    let mut i: usize = 0;
    while i < keys.len()
        invariant
            i <= keys.len(),
            out.len() == i,
            sorted_by(out@, by_key()),
            out@.to_multiset() == keys@.take(i as int).to_multiset(),
        decreases keys.len() - i,
    {
        let x = keys[i];
        let mut pos: usize = 0;
        while pos < out.len() && key_le(&out[pos], &x)
            invariant
                pos <= out.len(),
                forall|j: int| 0 <= j < pos ==> key_leq(#[trigger] out[j], x),
            decreases out.len() - pos,
        {
            pos += 1;
        }
        let ghost before = out@;
        out.insert(pos, x);
        proof {
            vstd::seq_lib::to_multiset_insert(before, pos as int, x);
            assert(keys@.take(i + 1) =~= keys@.take(i as int).push(x));
            vstd::seq_lib::to_multiset_build(keys@.take(i as int), x);
            assert(out@ == before.insert(pos as int, x));
            assert(out@.to_multiset() =~= keys@.take(i + 1).to_multiset());
            assert forall|a: int, b: int| 0 <= a < b < out.len() implies #[trigger] by_key()(
                out[a],
                out[b],
            ) by {
                if b < pos {
                    assert(by_key()(before[a], before[b]));
                } else if b == pos {
                    assert(key_leq(before[a], x));
                } else if a < pos {
                    assert(by_key()(before[a], before[b - 1]));
                } else if a == pos {
                    if pos < before.len() {
                        assert(!key_leq(before[pos as int], x));
                        if pos < b - 1 {
                            assert(by_key()(before[pos as int], before[b - 1]));
                        }
                    }
                } else {
                    assert(by_key()(before[a - 1], before[b - 1]));
                }
            }
        }
        i += 1;
    }
    proof {
        assert(keys@.take(keys.len() as int) =~= keys@);
        lemma_by_key_total();
        keys@.lemma_sort_by_ensures(by_key());
        lemma_sorted_unique(out@, sorted_keys(keys@), by_key());
    }
    out
}

} // verus!
