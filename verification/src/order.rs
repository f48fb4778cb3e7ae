//! Lexicographic order of texts, and sorting by it.
//!
//! Rust orders `String`s by their UTF-8 bytes; UTF-8 keeps the order of code
//! points, so this is the lexicographic order of the characters.
use vstd::prelude::*;
use vstd::relations::sorted_by;

use crate::text::chars_of;

verus! {

broadcast use vstd::seq_lib::to_multiset_insert;

/// `a` comes before `b` or equals it, comparing characters left to right.
pub open spec fn lex_le(a: Seq<char>, b: Seq<char>) -> bool
    decreases a.len(),
{
    if a.len() == 0 {
        true
    } else if b.len() == 0 {
        false
    } else if a[0] != b[0] {
        a[0] < b[0]
    } else {
        lex_le(a.drop_first(), b.drop_first())
    }
}

/// Any two texts are ordered one way or the other.
pub proof fn lemma_lex_total(a: Seq<char>, b: Seq<char>)
    ensures
        lex_le(a, b) || lex_le(b, a),
    decreases a.len(),
{
    if a.len() > 0 && b.len() > 0 && a[0] == b[0] {
        lemma_lex_total(a.drop_first(), b.drop_first());
    }
}

/// The order is transitive.
pub proof fn lemma_lex_trans(a: Seq<char>, b: Seq<char>, c: Seq<char>)
    requires
        lex_le(a, b),
        lex_le(b, c),
    ensures
        lex_le(a, c),
    decreases a.len(),
{
    if a.len() > 0 && b.len() > 0 && c.len() > 0 && a[0] == b[0] && b[0] == c[0] {
        lemma_lex_trans(a.drop_first(), b.drop_first(), c.drop_first());
    }
}

/// Texts that are ordered both ways are equal.
pub proof fn lemma_lex_antisym(a: Seq<char>, b: Seq<char>)
    requires
        lex_le(a, b),
        lex_le(b, a),
    ensures
        a == b,
    decreases a.len(),
{
    if a.len() > 0 && b.len() > 0 {
        lemma_lex_antisym(a.drop_first(), b.drop_first());
        assert(a =~= seq![a[0]] + a.drop_first());
        assert(b =~= seq![b[0]] + b.drop_first());
    } else if a.len() == 0 && b.len() > 0 {
    } else {
        assert(a =~= b);
    }
}

/// Whether `a` comes before `b` or equals it.
pub fn lex_le_exec(a: &[char], b: &[char]) -> (r: bool)
    ensures
        r == lex_le(a@, b@),
{
    let mut i: usize = 0;
    assert(a@.skip(0) == a@);
    assert(b@.skip(0) == b@);
    while i < a.len() && i < b.len() && a[i] == b[i]
        invariant
            i <= a.len(),
            i <= b.len(),
            lex_le(a@, b@) == lex_le(a@.skip(i as int), b@.skip(i as int)),
        decreases a.len() - i,
    {
        assert(a@.skip(i as int).drop_first() == a@.skip(i + 1));
        assert(b@.skip(i as int).drop_first() == b@.skip(i + 1));
        i += 1;
    }
    if i == a.len() {
        true
    } else if i == b.len() {
        false
    } else {
        a[i] < b[i]
    }
}

/// The texts of a list of strings.
pub open spec fn texts(v: Seq<String>) -> Seq<Seq<char>> {
    v.map_values(|s: String| s@)
}

/// The lexicographic order as a relation.
pub open spec fn lex_order() -> spec_fn(Seq<char>, Seq<char>) -> bool {
    |a: Seq<char>, b: Seq<char>| lex_le(a, b)
}

/// Sorts strings in lexicographic order, as `Vec::sort` on strings does.
pub fn sort_strings(v: Vec<String>) -> (r: Vec<String>)
    ensures
        sorted_by(texts(r@), lex_order()),
        texts(r@).to_multiset() == texts(v@).to_multiset(),
{
    let mut out: Vec<String> = Vec::new();
    let mut i: usize = 0;
    assert(texts(out@) =~= texts(v@.take(0)));
    while i < v.len()
        invariant
            i <= v.len(),
            sorted_by(texts(out@), lex_order()),
            texts(out@).to_multiset() == texts(v@.take(i as int)).to_multiset(),
        decreases v.len() - i,
    {
        let x = chars_of(v[i].as_str());
        let mut p: usize = 0;
        while p < out.len() && lex_le_exec(chars_of(out[p].as_str()).as_slice(), x.as_slice())
            invariant
                p <= out.len(),
                forall|k: int| 0 <= k < p ==> lex_le(#[trigger] texts(out@)[k], x@),
            decreases out.len() - p,
        {
            p += 1;
        }
        let ghost before = texts(out@);
        proof {
            if p < out.len() {
                lemma_lex_total(before[p as int], x@);
            }
            assert forall|k: int| p <= k < before.len() implies lex_le(x@, #[trigger] before[k]) by {
                if p < out.len() {
                    assert(lex_le(x@, before[p as int]));
                    if k > p {
                        assert(lex_order()(before[p as int], before[k]));
                        lemma_lex_trans(x@, before[p as int], before[k]);
                    }
                }
            }
        }
        out.insert(p, v[i].clone());
        proof {
            let after = texts(out@);
            assert(after =~= before.insert(p as int, x@));
            assert forall|a: int, b: int| 0 <= a < b < after.len() implies #[trigger] lex_order()(after[a], after[b]) by {
                if a < p && b == p {
                } else if a < p && b > p {
                    assert(lex_order()(before[a], before[b - 1]));
                } else if a == p {
                } else if a > p {
                    assert(lex_order()(before[a - 1], before[b - 1]));
                } else {
                    assert(lex_order()(before[a], before[b]));
                }
            }
            assert(texts(v@.take(i + 1)) =~= texts(v@.take(i as int)).push(x@));
            vstd::seq_lib::to_multiset_build(texts(v@.take(i as int)), x@);
        }
        i += 1;
    }
    assert(v@.take(v.len() as int) == v@);
    out
}

} // verus!
