//! Association lists: sequences of key/value pairs read as finite maps in
//! which the first occurrence of a key wins.
//!
//! Accounts, contract storage and the module cache are keyed by 32-byte
//! addresses, code hashes and byte strings. vstd's specifications of
//! `HashMap` and `BTreeMap` let a proof follow lookups and inserts only for
//! keys whose hashing and ordering it specifies (integers); for array or
//! vector keys nothing would be known of what a lookup returns. These lists
//! keep each map's contents as a `Vec` whose view is a `Map`, so every lookup,
//! insert and removal below is proved against that view.

use vstd::prelude::*;

verus! {

/// The map denoted by an association list; earlier entries shadow later
/// entries with the same key.
pub open spec fn assoc_view<K, V>(s: Seq<(K, V)>) -> Map<K, V>
    decreases s.len(),
{
    if s.len() == 0 {
        Map::empty()
    } else {
        assoc_view(s.drop_first()).insert(s[0].0, s[0].1)
    }
}

/// `i` is the index of the first entry of `s` whose key is `k`.
pub open spec fn is_first_index<K, V>(s: Seq<(K, V)>, k: K, i: int) -> bool {
    &&& 0 <= i < s.len()
    &&& s[i].0 == k
    &&& forall|j: int| 0 <= j < i ==> s[j].0 != k
}

/// No entry of `s` has key `k`.
pub open spec fn key_absent<K, V>(s: Seq<(K, V)>, k: K) -> bool {
    forall|j: int| 0 <= j < s.len() ==> s[j].0 != k
}

/// The entries of `s` whose key is not `k`, in order.
pub open spec fn without_key<K, V>(s: Seq<(K, V)>, k: K) -> Seq<(K, V)>
    decreases s.len(),
{
    if s.len() == 0 {
        Seq::empty()
    } else if s[0].0 == k {
        without_key(s.drop_first(), k)
    } else {
        seq![s[0]] + without_key(s.drop_first(), k)
    }
}

/// The value bound at the first occurrence of a key is the map's value.
pub proof fn lemma_assoc_found<K, V>(s: Seq<(K, V)>, k: K, i: int)
    requires
        is_first_index(s, k, i),
    ensures
        assoc_view(s).contains_key(k),
        assoc_view(s)[k] == s[i].1,
    decreases i,
{
    if i > 0 {
        let rest = s.drop_first();
        assert(is_first_index(rest, k, i - 1)) by {
            assert forall|j: int| 0 <= j < i - 1 implies rest[j].0 != k by {
                assert(rest[j] == s[j + 1]);
            }
        }
        lemma_assoc_found(rest, k, i - 1);
        assert(s[0].0 != k);
    }
}

/// A key that occurs nowhere is not in the map.
pub proof fn lemma_assoc_absent<K, V>(s: Seq<(K, V)>, k: K)
    requires
        key_absent(s, k),
    ensures
        !assoc_view(s).contains_key(k),
    decreases s.len(),
{
    if s.len() > 0 {
        let rest = s.drop_first();
        assert(key_absent(rest, k)) by {
            assert forall|j: int| 0 <= j < rest.len() implies rest[j].0 != k by {
                assert(rest[j] == s[j + 1]);
            }
        }
        lemma_assoc_absent(rest, k);
    }
}

/// If some entry has key `k`, a first such entry exists.
pub proof fn lemma_first_index_exists<K, V>(s: Seq<(K, V)>, k: K, i: int)
    requires
        0 <= i < s.len(),
        s[i].0 == k,
    ensures
        exists|f: int| is_first_index(s, k, f),
    decreases i,
{
    if forall|j: int| 0 <= j < i ==> s[j].0 != k {
        assert(is_first_index(s, k, i));
    } else {
        let j = choose|j: int| 0 <= j < i && s[j].0 == k;
        lemma_first_index_exists(s, k, j);
    }
}

/// Replacing the value at the first occurrence of a key updates the map.
pub proof fn lemma_assoc_update<K, V>(s: Seq<(K, V)>, k: K, i: int, v: V)
    requires
        is_first_index(s, k, i),
    ensures
        assoc_view(s.update(i, (k, v))) == assoc_view(s).insert(k, v),
    decreases i,
{
    let t = s.update(i, (k, v));
    if i == 0 {
        assert(t.drop_first() =~= s.drop_first());
        assert(assoc_view(t) =~= assoc_view(s).insert(k, v));
    } else {
        let rest = s.drop_first();
        assert(is_first_index(rest, k, i - 1)) by {
            assert forall|j: int| 0 <= j < i - 1 implies rest[j].0 != k by {
                assert(rest[j] == s[j + 1]);
            }
        }
        lemma_assoc_update(rest, k, i - 1, v);
        assert(t.drop_first() =~= rest.update(i - 1, (k, v)));
        assert(s[0].0 != k);
        assert(assoc_view(t) =~= assoc_view(s).insert(k, v));
    }
}

/// Appending an entry for a new key adds it to the map.
pub proof fn lemma_assoc_push<K, V>(s: Seq<(K, V)>, k: K, v: V)
    requires
        key_absent(s, k),
    ensures
        assoc_view(s.push((k, v))) == assoc_view(s).insert(k, v),
    decreases s.len(),
{
    let t = s.push((k, v));
    if s.len() == 0 {
        assert(t.drop_first() =~= Seq::<(K, V)>::empty());
        assert(t[0] == (k, v));
        assert(assoc_view(t.drop_first()) == Map::<K, V>::empty());
        assert(assoc_view(t) =~= assoc_view(s).insert(k, v));
    } else {
        let rest = s.drop_first();
        assert(key_absent(rest, k)) by {
            assert forall|j: int| 0 <= j < rest.len() implies rest[j].0 != k by {
                assert(rest[j] == s[j + 1]);
            }
        }
        lemma_assoc_push(rest, k, v);
        assert(t.drop_first() =~= rest.push((k, v)));
        assert(s[0].0 != k);
        assert(assoc_view(t) =~= assoc_view(s).insert(k, v));
    }
}

/// Dropping every entry with key `k` removes `k` from the map.
pub proof fn lemma_assoc_without<K, V>(s: Seq<(K, V)>, k: K)
    ensures
        assoc_view(without_key(s, k)) == assoc_view(s).remove(k),
    decreases s.len(),
{
    if s.len() == 0 {
        assert(assoc_view(s).remove(k) =~= Map::empty());
    } else {
        let rest = s.drop_first();
        lemma_assoc_without(rest, k);
        if s[0].0 == k {
            assert(assoc_view(s).remove(k) =~= assoc_view(rest).remove(k));
        } else {
            let w = without_key(rest, k);
            assert((seq![s[0]] + w).drop_first() =~= w);
            assert(assoc_view(without_key(s, k)) =~= assoc_view(s).remove(k));
        }
    }
}

/// `without_key` distributes over appending one entry.
pub proof fn lemma_without_key_push<K, V>(s: Seq<(K, V)>, e: (K, V), k: K)
    ensures
        without_key(s.push(e), k) == if e.0 == k {
            without_key(s, k)
        } else {
            without_key(s, k).push(e)
        },
    decreases s.len(),
{
    let t = s.push(e);
    if s.len() == 0 {
        assert(t.drop_first() =~= Seq::<(K, V)>::empty());
        assert(t[0] == e);
        assert(without_key(t.drop_first(), k) == Seq::<(K, V)>::empty());
        assert(without_key(s, k) == Seq::<(K, V)>::empty());
        if e.0 != k {
            assert(seq![e] + Seq::<(K, V)>::empty() =~= Seq::<(K, V)>::empty().push(e));
        }
    } else {
        let rest = s.drop_first();
        assert(t.drop_first() =~= rest.push(e));
        assert(t[0] == s[0]);
        lemma_without_key_push(rest, e, k);
        if s[0].0 != k && e.0 != k {
            assert(seq![s[0]] + without_key(rest, k).push(e) =~= (seq![s[0]] + without_key(
                rest,
                k,
            )).push(e));
        }
    }
}

} // verus!
