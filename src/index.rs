//! Lists of keyed entries where the first entry of each key wins.
use vstd::prelude::*;

verus! {

pub open spec fn has_key<V>(s: Seq<(Seq<char>, V)>, k: Seq<char>) -> bool {
    exists|i: int| 0 <= i < s.len() && (#[trigger] s[i]).0 == k
}

/// What inserting the entries of `s` in order into a map that keeps an
/// existing key's entry leaves, in the order in which keys first came.
pub open spec fn first_wins<V>(s: Seq<(Seq<char>, V)>) -> Seq<(Seq<char>, V)>
    decreases s.len(),
{
    if s.len() == 0 {
        Seq::empty()
    } else {
        let m = first_wins(s.drop_last());
        if has_key(m, s.last().0) {
            m
        } else {
            m.push(s.last())
        }
    }
}

pub open spec fn keys_unique<V>(s: Seq<(Seq<char>, V)>) -> bool {
    forall|i: int, j: int| 0 <= i < j < s.len() ==> (#[trigger] s[i]).0 != (#[trigger] s[j]).0
}

/// Entry `j` is the first of `s` with its key.
pub open spec fn is_first<V>(s: Seq<(Seq<char>, V)>, j: int) -> bool {
    &&& 0 <= j < s.len()
    &&& forall|l: int| 0 <= l < j ==> (#[trigger] s[l]).0 != s[j].0
}

/// Whether `m` holds an entry with key `k`.
pub fn contains_key<V: DeepView>(m: &Vec<(String, V)>, k: &String) -> (r: bool)
    ensures
        r == has_key(m.deep_view(), k@),
{
    let mut i: usize = 0;
    while i < m.len()
        invariant
            i <= m@.len(),
            forall|l: int| 0 <= l < i ==> (#[trigger] m.deep_view()[l]).0 != k@,
        decreases m@.len() - i,
    {
        if m[i].0 == *k {
            assert(m.deep_view()[i as int].0 == k@);
            return true;
        }
        i = i + 1;
    }
    false
}

/// Adds the entry unless its key is already there.
pub fn insert_first<V: DeepView>(m: &mut Vec<(String, V)>, k: String, v: V)
    ensures
        final(m).deep_view() == (if has_key(old(m).deep_view(), k@) {
            old(m).deep_view()
        } else {
            old(m).deep_view().push((k@, v.deep_view()))
        }),
{
    if !contains_key(m, &k) {
        m.push((k, v));
        assert(final(m).deep_view() =~= old(m).deep_view().push((k@, v.deep_view())));
    }
}

proof fn lemma_first_wins_keys<V>(s: Seq<(Seq<char>, V)>)
    ensures
        keys_unique(first_wins(s)),
        forall|k: Seq<char>| has_key(first_wins(s), k) <==> has_key(s, k),
    decreases s.len(),
{
    if s.len() > 0 {
        let p = s.drop_last();
        let m = first_wins(p);
        let last = s.last();
        let fs = first_wins(s);
        lemma_first_wins_keys(p);
        assert forall|k: Seq<char>| has_key(fs, k) <==> has_key(s, k) by {
            if has_key(s, k) {
                let l = choose|l: int| 0 <= l < s.len() && (#[trigger] s[l]).0 == k;
                if l < s.len() - 1 {
                    assert(p[l] == s[l]);
                    assert(has_key(p, k));
                    assert(has_key(m, k));
                    let w = choose|w: int| 0 <= w < m.len() && (#[trigger] m[w]).0 == k;
                    assert(fs[w] == m[w]);
                    assert(has_key(fs, k));
                } else if !has_key(m, last.0) {
                    assert(fs[m.len() as int] == last);
                    assert(has_key(fs, k));
                } else {
                    assert(has_key(fs, k));
                }
            }
            if has_key(fs, k) {
                let w = choose|w: int| 0 <= w < fs.len() && (#[trigger] fs[w]).0 == k;
                if w < m.len() {
                    assert(m[w] == fs[w]);
                    assert(has_key(m, k));
                    assert(has_key(p, k));
                    let l = choose|l: int| 0 <= l < p.len() && (#[trigger] p[l]).0 == k;
                    assert(s[l] == p[l]);
                } else {
                    assert(s[s.len() - 1].0 == k);
                }
                assert(has_key(s, k));
            }
        }
        assert forall|i: int, j: int| 0 <= i < j < fs.len() implies
            (#[trigger] fs[i]).0 != (#[trigger] fs[j]).0 by {
            assert(fs[i] == m[i]);
            if j < m.len() {
                assert(fs[j] == m[j]);
            } else if m[i].0 == last.0 {
                assert(has_key(m, last.0));
            }
        }
    }
}

proof fn lemma_first_wins_keeps_first<V>(s: Seq<(Seq<char>, V)>)
    ensures
        forall|j: int| is_first(s, j) ==> first_wins(s).contains(#[trigger] s[j]),
    decreases s.len(),
{
    if s.len() > 0 {
        let p = s.drop_last();
        let m = first_wins(p);
        let last = s.last();
        let fs = first_wins(s);
        lemma_first_wins_keeps_first(p);
        assert forall|w: int| 0 <= w < m.len() implies fs[w] == m[w] by {}
        assert forall|j: int| is_first(s, j) implies fs.contains(#[trigger] s[j]) by {
            if j < s.len() - 1 {
                assert(p[j] == s[j]);
                assert forall|l: int| 0 <= l < j implies (#[trigger] p[l]).0 != p[j].0 by {
                    assert(s[l] == p[l]);
                }
                assert(is_first(p, j));
                assert(m.contains(p[j]));
                let w = choose|w: int| 0 <= w < m.len() && m[w] == p[j];
                assert(fs[w] == s[j]);
            } else {
                lemma_first_wins_keys(p);
                assert(!has_key(p, last.0)) by {
                    if has_key(p, last.0) {
                        let l = choose|l: int| 0 <= l < p.len() && (#[trigger] p[l]).0 == last.0;
                        assert(s[l] == p[l]);
                    }
                }
                assert(fs[m.len() as int] == s[j]);
            }
        }
    }
}

proof fn lemma_first_wins_only_first<V>(s: Seq<(Seq<char>, V)>)
    ensures
        forall|e: (Seq<char>, V)|
            first_wins(s).contains(e) ==> exists|j: int| is_first(s, j) && #[trigger] s[j] == e,
    decreases s.len(),
{
    if s.len() > 0 {
        let p = s.drop_last();
        let m = first_wins(p);
        let last = s.last();
        let fs = first_wins(s);
        lemma_first_wins_only_first(p);
        lemma_first_wins_keys(p);
        assert forall|e: (Seq<char>, V)| fs.contains(e) implies exists|j: int|
            is_first(s, j) && #[trigger] s[j] == e by {
            let w = choose|w: int| 0 <= w < fs.len() && fs[w] == e;
            if w < m.len() {
                assert(m[w] == e);
                assert(m.contains(e));
                let j = choose|j: int| is_first(p, j) && #[trigger] p[j] == e;
                assert(s[j] == p[j]);
                assert forall|l: int| 0 <= l < j implies (#[trigger] s[l]).0 != s[j].0 by {
                    assert(s[l] == p[l]);
                }
            } else {
                let j = s.len() - 1;
                assert(s[j] == e);
                assert forall|l: int| 0 <= l < j implies (#[trigger] s[l]).0 != s[j].0 by {
                    assert(s[l] == p[l]);
                    if s[l].0 == s[j].0 {
                        assert(has_key(p, last.0));
                    }
                }
            }
        }
    }
}

/// The first entry of each key is kept and no other: keys in the result are
/// distinct, the first entry of every key of `s` is in it, each entry in it is
/// the first of its key in `s`, and it has exactly the keys of `s`.
pub proof fn lemma_first_wins<V>(s: Seq<(Seq<char>, V)>)
    ensures
        keys_unique(first_wins(s)),
        forall|j: int| is_first(s, j) ==> first_wins(s).contains(#[trigger] s[j]),
        forall|e: (Seq<char>, V)|
            first_wins(s).contains(e) ==> exists|j: int| is_first(s, j) && #[trigger] s[j] == e,
        forall|k: Seq<char>| has_key(first_wins(s), k) <==> has_key(s, k),
{
    lemma_first_wins_keys(s);
    lemma_first_wins_keeps_first(s);
    lemma_first_wins_only_first(s);
}

} // verus!
