//! Recalculating the frecency of the URLs in the stale queue, the most
//! recently stale first, a chunk at a time.

use vstd::prelude::*;
use crate::db::{place_index, DbModel};
use crate::error::ErrorKind;
use crate::order::{lemma_sorted_keys, sort_keys, sorted_keys, SortKey};
use crate::rows::{Place, PlaceModel, StaleFrecency, StaleFrecencyModel};
use crate::seqs::{lemma_filter_step, lemma_first_index, lemma_take_all};
use crate::store::BookmarksStore;

verus! {

/// The maximum number of URLs for which to recalculate frecencies at once.
/// This is a trade-off between write efficiency and the time for which the
/// store is held.
pub const MAX_FRECENCIES_TO_RECALCULATE_PER_CHUNK: usize = 400;

/// Whether the place with the key `id` is in the stale queue.
pub open spec fn is_stale(stale: Seq<StaleFrecencyModel>, id: i64) -> bool {
    exists|j: int| 0 <= j < stale.len() && (#[trigger] stale[j]).place_id == id
}

/// Whether `id` is one of `ids`.
pub open spec fn among(ids: Seq<i64>, id: i64) -> bool {
    exists|c: int| 0 <= c < ids.len() && #[trigger] ids[c] == id
}

/// The keys that order the stale queue: the latest time first.
pub open spec fn stale_keys(stale: Seq<StaleFrecencyModel>) -> Seq<SortKey> {
    Seq::new(
        stale.len(),
        |i: int|
            SortKey {
                major: (-1 - stale[i].stale_at) as i64,
                minor: 0,
                rank: 0,
                index: i as usize,
            },
    )
}

/// The number of URLs in the next chunk.
pub open spec fn chunk_len(stale: Seq<StaleFrecencyModel>) -> int {
    if stale.len() <= MAX_FRECENCIES_TO_RECALCULATE_PER_CHUNK {
        stale.len() as int
    } else {
        MAX_FRECENCIES_TO_RECALCULATE_PER_CHUNK as int
    }
}

/// The keys of the places in the next chunk: those of the most recently
/// stale entries of the queue, in that order.
pub open spec fn next_chunk(stale: Seq<StaleFrecencyModel>) -> Seq<i64> {
    Seq::new(
        chunk_len(stale) as nat,
        |c: int| stale[sorted_keys(stale_keys(stale))[c].index as int].place_id,
    )
}

/// The property of not being queued for one of the places `ids`.
pub open spec fn not_among(ids: Seq<i64>) -> spec_fn(StaleFrecencyModel) -> bool {
    |s: StaleFrecencyModel| !among(ids, s.place_id)
}

/// The keys of the places in the next chunk of the stale queue.
pub fn stale_chunk(stale: &Vec<StaleFrecency>) -> (ids: Vec<i64>)
    ensures
        ids@ == next_chunk(stale.deep_view()),
        forall|c: int| 0 <= c < ids.len() ==> is_stale(stale.deep_view(), #[trigger] ids[c]),
        stale.len() > 0 ==> ids.len() > 0,
        ids.len() <= MAX_FRECENCIES_TO_RECALCULATE_PER_CHUNK,
{
    let ghost all = stale.deep_view();
    let mut keys: Vec<SortKey> = Vec::new();
    let mut i: usize = 0;
    while i < stale.len()
        invariant
            i <= stale.len(),
            all == stale.deep_view(),
            keys.len() == i,
            forall|j: int| 0 <= j < i ==> #[trigger] keys[j] == stale_keys(all)[j],
        decreases stale.len() - i,
    {
        keys.push(SortKey { major: -1 - stale[i].stale_at, minor: 0, rank: 0, index: i });
        i += 1;
    }
    assert(keys@ =~= stale_keys(all));
    let sorted = sort_keys(&keys);
    proof {
        lemma_sorted_keys(keys@);
    }
    let n = if stale.len() <= MAX_FRECENCIES_TO_RECALCULATE_PER_CHUNK {
        stale.len()
    } else {
        MAX_FRECENCIES_TO_RECALCULATE_PER_CHUNK
    };
    let mut ids: Vec<i64> = Vec::new();
    let mut c: usize = 0;
    while c < n
        invariant
            c <= n,
            n == chunk_len(all),
            n <= stale.len(),
            all == stale.deep_view(),
            keys@ == stale_keys(all),
            sorted@ == sorted_keys(keys@),
            sorted.len() == keys.len(),
            forall|j: int| 0 <= j < keys.len() ==> keys@.contains(#[trigger] sorted@[j]),
            ids.len() == c,
            forall|j: int| 0 <= j < c ==> #[trigger] ids[j] == next_chunk(all)[j],
            forall|j: int| 0 <= j < c ==> is_stale(all, #[trigger] ids[j]),
        decreases n - c,
    {
        let k = sorted[c];
        assert(keys@.contains(sorted@[c as int]));
        let ghost j = choose|j: int| 0 <= j < keys.len() && keys[j] == k;
        assert(k.index == j);
        ids.push(stale[k.index].place_id);
        assert(all[k.index as int].place_id == ids[c as int]);
        c += 1;
    }
    assert(ids@ =~= next_chunk(all));
    ids
}

/// Whether `id` is one of `ids`.
pub fn is_among(ids: &Vec<i64>, id: i64) -> (r: Option<usize>)
    ensures
        r is Some <==> among(ids@, id),
        r matches Some(c) ==> c < ids.len() && ids[c as int] == id,
{
    let mut c: usize = 0;
    while c < ids.len()
        invariant
            c <= ids.len(),
            forall|j: int| 0 <= j < c ==> #[trigger] ids[j] != id,
        decreases ids.len() - c,
    {
        if ids[c] == id {
            return Some(c);
        }
        c += 1;
    }
    None
}

/// Taking out at least one element makes a list shorter.
proof fn lemma_filter_shrinks<T>(s: Seq<T>, p: spec_fn(T) -> bool, i: int)
    requires
        0 <= i < s.len(),
        !p(s[i]),
    ensures
        s.filter(p).len() < s.len(),
    decreases s.len(),
{
    reveal(Seq::filter);
    broadcast use vstd::seq_lib::group_filter_ensures;

    if i < s.len() - 1 {
        lemma_filter_shrinks(s.drop_last(), p, i);
    } else {
        assert(s.drop_last().filter(p).len() <= s.drop_last().len());
    }
}

/// What is left of the queue is part of the queue.
proof fn lemma_filter_is_part(stale: Seq<StaleFrecencyModel>, ids: Seq<i64>, id: i64)
    requires
        is_stale(stale.filter(not_among(ids)), id),
    ensures
        is_stale(stale, id),
        !among(ids, id),
{
    broadcast use vstd::seq_lib::group_filter_ensures;

    let kept = stale.filter(not_among(ids));
    let j = choose|j: int| 0 <= j < kept.len() && (#[trigger] kept[j]).place_id == id;
    assert(not_among(ids)(kept[j]));
    assert(kept.contains(kept[j]));
    stale.lemma_filter_contains_rev(not_among(ids), kept[j]);
    let k = choose|k: int| 0 <= k < stale.len() && stale[k] == kept[j];
    assert(stale[k].place_id == id);
}

/// What is queued and not taken out is still queued.
proof fn lemma_filter_keeps(stale: Seq<StaleFrecencyModel>, ids: Seq<i64>, id: i64)
    requires
        is_stale(stale, id),
        !among(ids, id),
    ensures
        is_stale(stale.filter(not_among(ids)), id),
{
    broadcast use vstd::seq_lib::group_filter_ensures;

    let j = choose|j: int| 0 <= j < stale.len() && (#[trigger] stale[j]).place_id == id;
    assert(not_among(ids)(stale[j]));
    let kept = stale.filter(not_among(ids));
    assert(kept.contains(stale[j]));
    let k = choose|k: int| 0 <= k < kept.len() && kept[k] == stale[j];
    assert(kept[k].place_id == id);
}

fn drop_scored(stale: &mut Vec<StaleFrecency>, ids: &Vec<i64>)
    ensures
        final(stale).deep_view() == old(stale).deep_view().filter(not_among(ids@)),
{
    let ghost all = stale.deep_view();
    let mut kept: Vec<StaleFrecency> = Vec::new();
    assert(kept.deep_view() =~= Seq::empty());
    let mut n: usize = 0;
    while n < stale.len()
        invariant
            n <= stale.len(),
            all == stale.deep_view(),
            kept.deep_view() == all.take(n as int).filter(not_among(ids@)),
        decreases stale.len() - n,
    {
        proof {
            lemma_filter_step(all, not_among(ids@), n as int);
        }
        let ghost before = kept.deep_view();
        if is_among(ids, stale[n].place_id).is_none() {
            kept.push(stale[n].duplicate());
            assert(kept.deep_view() =~= before.push(all[n as int]));
        }
        n += 1;
    }
    proof {
        lemma_take_all(all);
    }
    *stale = kept;
}

/// Whether `after` holds the places of `before` with new frecencies for
/// those that `fresh` picks, each as `scorer` gives it, and with the old
/// frecencies for the others.
pub open spec fn rescored<F: Fn(i64) -> i32>(
    before: Seq<PlaceModel>,
    after: Seq<PlaceModel>,
    fresh: spec_fn(i64) -> bool,
    scorer: F,
) -> bool {
    &&& after.len() == before.len()
    &&& forall|i: int|
        0 <= i < before.len() ==> {
            &&& (#[trigger] after[i]).id == before[i].id
            &&& after[i].url == before[i].url
            &&& if fresh(before[i].id) {
                call_ensures(scorer, (before[i].id,), after[i].frecency)
            } else {
                after[i].frecency == before[i].frecency
            }
        }
}

fn score_chunk<F: Fn(i64) -> i32>(places: &mut Vec<Place>, ids: &Vec<i64>, scorer: &F)
    requires
        forall|id: i64| call_requires(*scorer, (id,)),
    ensures
        rescored(
            old(places).deep_view(),
            final(places).deep_view(),
            |id: i64| among(ids@, id),
            *scorer,
        ),
{
    let mut scores: Vec<i32> = Vec::new();
    let mut c: usize = 0;
    while c < ids.len()
        invariant
            c <= ids.len(),
            scores.len() == c,
            forall|id: i64| call_requires(*scorer, (id,)),
            forall|j: int| 0 <= j < c ==> call_ensures(*scorer, (ids[j],), #[trigger] scores[j]),
        decreases ids.len() - c,
    {
        let score = scorer(ids[c]);
        scores.push(score);
        c += 1;
    }
    let ghost before = places.deep_view();
    let mut i: usize = 0;
    while i < places.len()
        invariant
            i <= places.len(),
            places.len() == before.len(),
            scores.len() == ids.len(),
            forall|j: int|
                0 <= j < ids.len() ==> call_ensures(*scorer, (ids[j],), #[trigger] scores[j]),
            forall|j: int| i <= j < places.len() ==> #[trigger] places.deep_view()[j] == before[j],
            forall|j: int|
                0 <= j < i ==> {
                    &&& (#[trigger] places.deep_view()[j]).id == before[j].id
                    &&& places.deep_view()[j].url == before[j].url
                    &&& if among(ids@, before[j].id) {
                        call_ensures(*scorer, (before[j].id,), places.deep_view()[j].frecency)
                    } else {
                        places.deep_view()[j].frecency == before[j].frecency
                    }
                },
        decreases places.len() - i,
    {
        let ghost mid = places.deep_view();
        assert(mid[i as int] == before[i as int]);
        match is_among(ids, places[i].id) {
            Some(c) => {
                let mut place = places[i].duplicate();
                place.frecency = scores[c];
                places.set(i, place);
                assert(places.deep_view() =~= mid.update(
                    i as int,
                    PlaceModel { frecency: scores[c as int], ..mid[i as int] },
                ));
                assert(call_ensures(*scorer, (ids[c as int],), scores[c as int]));
                assert(among(ids@, before[i as int].id));
            },
            None => {
                assert(!among(ids@, before[i as int].id));
            },
        }
        assert forall|j: int| 0 <= j < i + 1 implies {
            &&& (#[trigger] places.deep_view()[j]).id == before[j].id
            &&& places.deep_view()[j].url == before[j].url
            &&& if among(ids@, before[j].id) {
                call_ensures(*scorer, (before[j].id,), places.deep_view()[j].frecency)
            } else {
                places.deep_view()[j].frecency == before[j].frecency
            }
        } by {
            if j < i {
                assert(places.deep_view()[j] == mid[j]);
            }
        }
        i += 1;
    }
}

impl DbModel {
    /// Whether the frecency of no URL is stale.
    pub open spec fn no_frecency_is_stale(self) -> bool {
        forall|url: Seq<char>| self.frecency_stale_at(url) is None
    }
}

impl BookmarksStore {
    /// Recalculates the frecency of every URL in the stale queue, and
    /// empties the queue. `scorer` gives the frecency of the place with a
    /// given key. The URLs are taken the most recently stale first, at most
    /// `MAX_FRECENCIES_TO_RECALCULATE_PER_CHUNK` at a time.
    pub fn update_frecencies<F: Fn(i64) -> i32>(&mut self, scorer: F) -> (r: Result<(), ErrorKind>)
        requires
            forall|id: i64| call_requires(scorer, (id,)),
        ensures
            final(self).interruptee == old(self).interruptee,
            old(self).interruptee.interrupted ==> r == Err::<(), ErrorKind>(ErrorKind::Interrupted)
                && final(self).db@ == old(self).db@,
            !old(self).interruptee.interrupted ==> {
                &&& r is Ok
                &&& final(self).db@.stale_frecencies.len() == 0
                &&& rescored(
                    old(self).db@.places,
                    final(self).db@.places,
                    |id: i64| is_stale(old(self).db@.stale_frecencies, id),
                    scorer,
                )
                &&& final(self).db@ == (DbModel {
                    places: final(self).db@.places,
                    stale_frecencies: Seq::empty(),
                    ..old(self).db@
                })
                &&& final(self).db@.no_frecency_is_stale()
            },
            old(self).db@.has_unique_keys() ==> final(self).db@.has_unique_keys(),
    {
        if self.interruptee.was_interrupted() {
            return Err(ErrorKind::Interrupted);
        }
        recalculate(&mut self.db.places, &mut self.db.stale_frecencies, &scorer);
        assert(self.db.stale_frecencies.deep_view() =~= Seq::empty());
        proof {
            lemma_empty_queue_nothing_stale(self.db@);
            if old(self).db@.has_unique_keys() {
                crate::keys::lemma_rescored_keeps_the_keys_unique(
                    old(self).db@,
                    self.db@.places,
                    |id: i64| is_stale(old(self).db@.stale_frecencies, id),
                    scorer,
                );
            }
        }
        Ok(())
    }
}

fn recalculate<F: Fn(i64) -> i32>(
    places: &mut Vec<Place>,
    stale: &mut Vec<StaleFrecency>,
    scorer: &F,
)
    requires
        forall|id: i64| call_requires(*scorer, (id,)),
    ensures
        final(stale).len() == 0,
        rescored(
            old(places).deep_view(),
            final(places).deep_view(),
            |id: i64| is_stale(old(stale).deep_view(), id),
            *scorer,
        ),
{
    let ghost before = places.deep_view();
    let ghost queue = stale.deep_view();
    while stale.len() > 0
        invariant
            forall|id: i64| call_requires(*scorer, (id,)),
            forall|id: i64| is_stale(stale.deep_view(), id) ==> is_stale(queue, id),
            places.len() == before.len(),
            forall|i: int|
                0 <= i < before.len() ==> {
                    &&& (#[trigger] places.deep_view()[i]).id == before[i].id
                    &&& places.deep_view()[i].url == before[i].url
                    &&& (places.deep_view()[i].frecency == before[i].frecency || (is_stale(
                        queue,
                        before[i].id,
                    ) && call_ensures(*scorer, (before[i].id,), places.deep_view()[i].frecency)))
                    &&& (is_stale(queue, before[i].id) && !is_stale(
                        stale.deep_view(),
                        before[i].id,
                    ) ==> call_ensures(*scorer, (before[i].id,), places.deep_view()[i].frecency))
                },
        decreases stale.len(),
    {
        let ghost mid_places = places.deep_view();
        let ghost mid_stale = stale.deep_view();
        let ids = stale_chunk(stale);
        score_chunk(places, &ids, scorer);
        drop_scored(stale, &ids);
        proof {
            let first = ids@[0];
            assert(is_stale(mid_stale, first));
            let j = choose|j: int| 0 <= j < mid_stale.len() && (#[trigger] mid_stale[j]).place_id == first;
            assert(among(ids@, mid_stale[j].place_id));
            lemma_filter_shrinks(mid_stale, not_among(ids@), j);
            assert forall|id: i64| is_stale(stale.deep_view(), id) implies is_stale(queue, id) by {
                lemma_filter_is_part(mid_stale, ids@, id);
            }
            assert forall|i: int| 0 <= i < before.len() implies {
                &&& (#[trigger] places.deep_view()[i]).id == before[i].id
                &&& places.deep_view()[i].url == before[i].url
                &&& (places.deep_view()[i].frecency == before[i].frecency || (is_stale(
                    queue,
                    before[i].id,
                ) && call_ensures(*scorer, (before[i].id,), places.deep_view()[i].frecency)))
                &&& (is_stale(queue, before[i].id) && !is_stale(
                    stale.deep_view(),
                    before[i].id,
                ) ==> call_ensures(*scorer, (before[i].id,), places.deep_view()[i].frecency))
            } by {
                let id = before[i].id;
                assert(mid_places[i].id == id);
                if among(ids@, id) {
                    let c = choose|c: int| 0 <= c < ids@.len() && #[trigger] ids@[c] == id;
                    assert(is_stale(mid_stale, ids@[c]));
                } else {
                    if is_stale(mid_stale, id) {
                        lemma_filter_keeps(mid_stale, ids@, id);
                    }
                }
            }
        }
    }
    proof {
        assert forall|id: i64| !is_stale(stale.deep_view(), id) by {
            if is_stale(stale.deep_view(), id) {
                let j = choose|j: int|
                    0 <= j < stale.deep_view().len() && (#[trigger] stale.deep_view()[j]).place_id
                        == id;
            }
        }
    }
}

/// Where the stale queue is empty, the frecency of no URL is stale.
pub proof fn lemma_empty_queue_nothing_stale(db: DbModel)
    requires
        db.stale_frecencies.len() == 0,
    ensures
        db.no_frecency_is_stale(),
{
    assert forall|url: Seq<char>| db.frecency_stale_at(url) is None by {
        match place_index(db.places, url) {
            Some(i) => {
                lemma_first_index(
                    db.stale_frecencies,
                    crate::db::stale_has_place(db.places[i].id),
                );
            },
            None => {},
        }
    }
}

} // verus!
