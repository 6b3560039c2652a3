//! Putting rows in the order of a text. Texts are ordered character by
//! character, by the characters' code points, which is how their bytes are
//! ordered; a text comes after each of its proper prefixes.

use vstd::prelude::*;
use vstd::relations::{sorted_by, total_ordering};
use vstd::seq_lib::lemma_sorted_unique;

verus! {

/// Whether `a` comes before `b`, given that the two agree before the
/// character `i`.
pub open spec fn text_before_from(a: Seq<char>, b: Seq<char>, i: int) -> bool
    decreases a.len() - i,
{
    if i >= b.len() {
        false
    } else if i >= a.len() {
        true
    } else if a[i] != b[i] {
        (a[i] as u32) < (b[i] as u32)
    } else {
        text_before_from(a, b, i + 1)
    }
}

/// Whether the text `a` comes before the text `b`.
pub open spec fn text_before(a: Seq<char>, b: Seq<char>) -> bool {
    text_before_from(a, b, 0)
}

/// Of two texts that agree before the character `i`, at most one comes
/// before the other, and one does unless they are the same text.
pub proof fn lemma_text_order_from(a: Seq<char>, b: Seq<char>, i: int)
    requires
        0 <= i <= a.len(),
        i <= b.len(),
        forall|j: int| 0 <= j < i ==> a[j] == b[j],
    ensures
        !(text_before_from(a, b, i) && text_before_from(b, a, i)),
        a != b ==> text_before_from(a, b, i) || text_before_from(b, a, i),
        a == b ==> !text_before_from(a, b, i),
    decreases a.len() - i,
{
    if i < a.len() && i < b.len() {
        if a[i] == b[i] {
            lemma_text_order_from(a, b, i + 1);
        } else {
            vstd::utf8::char_u32_cast(a[i], a[i] as u32);
            vstd::utf8::char_u32_cast(b[i], b[i] as u32);
        }
    } else if i >= a.len() && i >= b.len() {
        assert(a =~= b);
    }
}

/// Where `a` comes before `b` and `b` before `c`, the three agreeing before
/// the character `i`, `a` comes before `c`.
pub proof fn lemma_text_order_chains(a: Seq<char>, b: Seq<char>, c: Seq<char>, i: int)
    requires
        0 <= i,
        text_before_from(a, b, i),
        text_before_from(b, c, i),
    ensures
        text_before_from(a, c, i),
    decreases a.len() - i,
{
    if i < a.len() && a[i] == b[i] && b[i] == c[i] {
        lemma_text_order_chains(a, b, c, i + 1);
    }
}

/// Whether `a` comes before `b`.
pub fn comes_before(a: &str, b: &str) -> (r: bool)
    ensures
        r == text_before(a@, b@),
{
    let n = a.unicode_len();
    let m = b.unicode_len();
    let mut i: usize = 0;
    while i < n && i < m
        invariant
            i <= n,
            i <= m,
            n == a@.len(),
            m == b@.len(),
            text_before(a@, b@) == text_before_from(a@, b@, i as int),
        decreases n - i,
    {
        let x = a.get_char(i);
        let y = b.get_char(i);
        if x != y {
            return (x as u32) < (y as u32);
        }
        i += 1;
    }
    i < m
}

/// The key by which a row is ordered: a text, which counts most, a number,
/// and the row's index in its table, which counts last so that no two keys
/// of one table are equal.
#[derive(Debug)]
pub struct TextKey {
    pub text: String,
    pub number: i64,
    pub index: usize,
}

/// What a `TextKey` says, with the text as what it reads.
pub ghost struct TextKeyModel {
    pub text: Seq<char>,
    pub number: i64,
    pub index: int,
}

impl DeepView for TextKey {
    type V = TextKeyModel;

    open spec fn deep_view(&self) -> TextKeyModel {
        TextKeyModel { text: self.text@, number: self.number, index: self.index as int }
    }
}

/// Whether `a` comes no later than `b`.
pub open spec fn text_key_leq(a: TextKeyModel, b: TextKeyModel) -> bool {
    text_before(a.text, b.text) || (a.text == b.text && (a.number < b.number || (a.number
        == b.number && a.index <= b.index)))
}

/// The order of keys.
pub open spec fn by_text_key() -> spec_fn(TextKeyModel, TextKeyModel) -> bool {
    |a: TextKeyModel, b: TextKeyModel| text_key_leq(a, b)
}

/// The keys in ascending order.
pub open spec fn sorted_text_keys(keys: Seq<TextKeyModel>) -> Seq<TextKeyModel> {
    keys.sort_by(by_text_key())
}

/// The order of keys is total.
pub proof fn lemma_by_text_key_total()
    ensures
        total_ordering(by_text_key()),
{
    let r = by_text_key();
    assert forall|x: TextKeyModel, y: TextKeyModel| #[trigger] r(x, y) && #[trigger] r(y, x)
        implies x == y by {
        lemma_text_order_from(x.text, y.text, 0);
    }
    assert forall|x: TextKeyModel, y: TextKeyModel, z: TextKeyModel| #[trigger]
        r(x, y) && #[trigger] r(y, z) implies r(x, z) by {
        if text_before(x.text, y.text) && text_before(y.text, z.text) {
            lemma_text_order_chains(x.text, y.text, z.text, 0);
        }
    }
    assert forall|x: TextKeyModel, y: TextKeyModel| #[trigger] r(x, y) || #[trigger] r(y, x) by {
        lemma_text_order_from(x.text, y.text, 0);
    }
    assert forall|x: TextKeyModel| #[trigger] r(x, x) by {}
}

/// What sorting keeps: every sorted key is one of the keys, every key is
/// among the sorted ones, and none is lost or made.
pub proof fn lemma_sorted_text_keys(keys: Seq<TextKeyModel>)
    ensures
        sorted_by(sorted_text_keys(keys), by_text_key()),
        sorted_text_keys(keys).to_multiset() == keys.to_multiset(),
        sorted_text_keys(keys).len() == keys.len(),
        forall|i: int|
            0 <= i < keys.len() ==> keys.contains(#[trigger] sorted_text_keys(keys)[i]),
        forall|i: int|
            0 <= i < keys.len() ==> sorted_text_keys(keys).contains(#[trigger] keys[i]),
{
    broadcast use vstd::seq_lib::group_to_multiset_ensures;

    lemma_by_text_key_total();
    keys.lemma_sort_by_ensures(by_text_key());
    let sorted = sorted_text_keys(keys);
    assert(sorted.to_multiset().len() == keys.to_multiset().len());
    assert forall|i: int| 0 <= i < keys.len() implies keys.contains(#[trigger] sorted[i]) by {
        assert(sorted.to_multiset().contains(sorted[i]));
    }
    assert forall|i: int| 0 <= i < keys.len() implies sorted.contains(#[trigger] keys[i]) by {
        assert(keys.to_multiset().contains(keys[i]));
    }
}

/// Whether `a` comes no later than `b`.
pub fn text_key_le(a: &TextKey, b: &TextKey) -> (r: bool)
    ensures
        r == text_key_leq(a.deep_view(), b.deep_view()),
{
    if comes_before(a.text.as_str(), b.text.as_str()) {
        return true;
    }
    if comes_before(b.text.as_str(), a.text.as_str()) {
        proof {
            lemma_text_order_from(a.text@, b.text@, 0);
        }
        return false;
    }
    proof {
        lemma_text_order_from(a.text@, b.text@, 0);
    }
    a.number < b.number || (a.number == b.number && a.index <= b.index)
}

/// The keys in ascending order.
pub fn sort_text_keys(keys: &Vec<TextKey>) -> (out: Vec<TextKey>)
    ensures
        out.deep_view() == sorted_text_keys(keys.deep_view()),
{
    broadcast use vstd::seq_lib::group_to_multiset_ensures;

    let ghost all = keys.deep_view();
    let mut out: Vec<TextKey> = Vec::new();
    assert(out.deep_view() =~= Seq::empty());
    let mut i: usize = 0;
    while i < keys.len()
        invariant
            i <= keys.len(),
            all == keys.deep_view(),
            out.len() == i,
            sorted_by(out.deep_view(), by_text_key()),
            out.deep_view().to_multiset() == all.take(i as int).to_multiset(),
        decreases keys.len() - i,
    {
        let x = TextKey { text: keys[i].text.clone(), number: keys[i].number, index: keys[i].index };
        let ghost xm = all[i as int];
        assert(x.deep_view() == xm);
        let mut pos: usize = 0;
        while pos < out.len() && text_key_le(&out[pos], &x)
            invariant
                pos <= out.len(),
                x.deep_view() == xm,
                forall|j: int| 0 <= j < pos ==> text_key_leq(#[trigger] out.deep_view()[j], xm),
            decreases out.len() - pos,
        {
            assert(out.deep_view()[pos as int] == out[pos as int].deep_view());
            pos += 1;
        }
        assert(pos < out.len() ==> out.deep_view()[pos as int] == out[pos as int].deep_view());
        let ghost before = out.deep_view();
        out.insert(pos, x);
        proof {
            lemma_by_text_key_total();
            assert(out.deep_view() =~= before.insert(pos as int, xm));
            vstd::seq_lib::to_multiset_insert(before, pos as int, xm);
            assert(all.take(i + 1) =~= all.take(i as int).push(xm));
            vstd::seq_lib::to_multiset_build(all.take(i as int), xm);
            assert(out.deep_view().to_multiset() =~= all.take(i + 1).to_multiset());
            let after = out.deep_view();
            assert forall|a: int, b: int| 0 <= a < b < after.len() implies #[trigger] by_text_key()(
                after[a],
                after[b],
            ) by {
                if b < pos {
                    assert(by_text_key()(before[a], before[b]));
                } else if b == pos {
                    assert(text_key_leq(before[a], xm));
                } else if a < pos {
                    assert(by_text_key()(before[a], before[b - 1]));
                } else if a == pos {
                    if pos < before.len() {
                        assert(!text_key_leq(before[pos as int], xm));
                        lemma_text_order_from(xm.text, before[pos as int].text, 0);
                        assert(by_text_key()(xm, before[pos as int]));
                        if pos < b - 1 {
                            assert(by_text_key()(before[pos as int], before[b - 1]));
                        }
                    }
                } else {
                    assert(by_text_key()(before[a - 1], before[b - 1]));
                }
            }
        }
        i += 1;
    }
    proof {
        assert(all.take(keys.len() as int) =~= all);
        lemma_by_text_key_total();
        all.lemma_sort_by_ensures(by_text_key());
        lemma_sorted_unique(out.deep_view(), sorted_text_keys(all), by_text_key());
    }
    out
}

} // verus!
