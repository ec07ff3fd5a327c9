//! The mathematical model of the in-memory mapping: a sequence of key-value
//! pairs, read as a `Map` in which later pairs override earlier ones, and
//! kept with pairwise-distinct keys.

use vstd::prelude::*;

verus! {

/// No two pairs of the sequence carry the same key.
pub open spec fn pairs_unique(s: Seq<(String, String)>) -> bool {
    forall|i: int, j: int| 0 <= i < j < s.len() ==> s[i].0@ != s[j].0@
}

/// The mapping a sequence of pairs denotes: pairs are inserted first to
/// last, so a later pair overrides an earlier one with the same key.
pub open spec fn pairs_map(s: Seq<(String, String)>) -> Map<Seq<char>, Seq<char>>
    decreases s.len(),
{
    if s.len() == 0 {
        Map::<Seq<char>, Seq<char>>::empty()
    } else {
        pairs_map(s.drop_last()).insert(s.last().0@, s.last().1@)
    }
}

/// A key is in the denoted mapping exactly when some pair carries it.
pub proof fn lemma_pairs_map_domain(s: Seq<(String, String)>, k: Seq<char>)
    ensures
        pairs_map(s).contains_key(k) <==> exists|i: int| 0 <= i < s.len() && s[i].0@ == k,
    decreases s.len(),
{
    if s.len() == 0 {
    } else {
        lemma_pairs_map_domain(s.drop_last(), k);
        assert(forall|i: int| 0 <= i < s.len() - 1 ==> s.drop_last()[i] == s[i]);
        if s.last().0@ == k {
            assert(s[s.len() - 1].0@ == k);
        } else {
            if pairs_map(s).contains_key(k) {
                let i = choose|i: int| 0 <= i < s.drop_last().len() && s.drop_last()[i].0@ == k;
                assert(0 <= i < s.len() && s[i].0@ == k);
            }
            if exists|i: int| 0 <= i < s.len() && s[i].0@ == k {
                let i = choose|i: int| 0 <= i < s.len() && s[i].0@ == k;
                assert(i < s.len() - 1);
                assert(s.drop_last()[i].0@ == k);
            }
        }
    }
}

/// With distinct keys, the pair at any index gives the mapping's value for
/// its key.
pub proof fn lemma_pairs_map_found(s: Seq<(String, String)>, i: int, k: Seq<char>)
    requires
        pairs_unique(s),
        0 <= i < s.len(),
        s[i].0@ == k,
    ensures
        pairs_map(s).contains_key(k),
        pairs_map(s)[k] == s[i].1@,
    decreases s.len(),
{
    if i == s.len() - 1 {
    } else {
        assert(forall|m: int| 0 <= m < s.len() - 1 ==> s.drop_last()[m] == s[m]);
        assert(pairs_unique(s.drop_last()));
        assert(s.last().0@ != k);
        lemma_pairs_map_found(s.drop_last(), i, k);
    }
}

/// Overwriting the pair at an index that already carries the key denotes
/// inserting the new value for that key, and keeps the keys distinct.
pub proof fn lemma_pairs_map_update(s: Seq<(String, String)>, i: int, p: (String, String))
    requires
        pairs_unique(s),
        0 <= i < s.len(),
        s[i].0@ == p.0@,
    ensures
        pairs_map(s.update(i, p)) == pairs_map(s).insert(p.0@, p.1@),
        pairs_unique(s.update(i, p)),
    decreases s.len(),
{
    let t = s.update(i, p);
    assert(forall|m: int| 0 <= m < s.len() && m != i ==> t[m] == s[m]);
    assert(pairs_unique(t));
    if i == s.len() - 1 {
        assert(t.drop_last() =~= s.drop_last());
        assert(t.last() == p);
        assert(pairs_map(s.drop_last()).insert(s.last().0@, s.last().1@).insert(p.0@, p.1@)
            =~= pairs_map(s.drop_last()).insert(p.0@, p.1@));
    } else {
        assert(forall|m: int| 0 <= m < s.len() - 1 ==> s.drop_last()[m] == s[m]);
        assert(pairs_unique(s.drop_last()));
        lemma_pairs_map_update(s.drop_last(), i, p);
        assert(t.drop_last() =~= s.drop_last().update(i, p));
        assert(t.last() == s.last());
        // The overwritten key differs from the last pair's key, so the two
        // inserts commute.
        assert(s.last().0@ != p.0@);
        assert(pairs_map(s.drop_last()).insert(p.0@, p.1@).insert(s.last().0@, s.last().1@)
            =~= pairs_map(s.drop_last()).insert(s.last().0@, s.last().1@).insert(p.0@, p.1@));
    }
}

/// Appending a pair whose key no other pair carries denotes inserting it,
/// and keeps the keys distinct.
pub proof fn lemma_pairs_map_push(s: Seq<(String, String)>, p: (String, String))
    requires
        pairs_unique(s),
        forall|i: int| 0 <= i < s.len() ==> s[i].0@ != p.0@,
    ensures
        pairs_map(s.push(p)) == pairs_map(s).insert(p.0@, p.1@),
        pairs_unique(s.push(p)),
{
    assert(s.push(p).drop_last() =~= s);
    assert(s.push(p).last() == p);
    assert(forall|m: int| 0 <= m < s.len() ==> s.push(p)[m] == s[m]);
}

} // verus!
