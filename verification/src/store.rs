use vstd::prelude::*;

verus! {

/// First-match lookup in an association list held as a sequence of
/// key-value pairs. With unique keys this behaves exactly like a finite map.
///
/// The three persistent stores of the ledger (balances, allowances, freeze
/// records) are all association lists over plain values; this module holds
/// the lookup model and the lemmas about how lookup behaves under the
/// sequence edits the stores perform: updating the entry at a key's index,
/// pushing an entry for a fresh key, and removing the entry at a key's index.
pub open spec fn lookup<K, V>(s: Seq<(K, V)>, key: K) -> Option<V>
    decreases s.len(),
{
    if s.len() == 0 {
        None
    } else if s[0].0 == key {
        Some(s[0].1)
    } else {
        lookup(s.drop_first(), key)
    }
}

/// No two entries share a key.
pub open spec fn unique_keys<K, V>(s: Seq<(K, V)>) -> bool {
    forall|i: int, j: int| 0 <= i < j < s.len() ==> s[i].0 != s[j].0
}

/// Lookup finds the entry at the first index that carries the key.
pub proof fn lemma_lookup_at_index<K, V>(s: Seq<(K, V)>, key: K, i: int)
    requires
        0 <= i < s.len(),
        s[i].0 == key,
        forall|k: int| 0 <= k < i ==> s[k].0 != key,
    ensures
        lookup(s, key) == Some(s[i].1),
    decreases i,
{
    if i > 0 {
        assert forall|k: int| 0 <= k < i - 1 implies s.drop_first()[k].0 != key by {
            assert(s.drop_first()[k] == s[k + 1]);
        }
        assert(s.drop_first()[i - 1] == s[i]);
        lemma_lookup_at_index(s.drop_first(), key, i - 1);
    }
}

/// Lookup of a key no entry carries comes back empty.
pub proof fn lemma_lookup_absent<K, V>(s: Seq<(K, V)>, key: K)
    requires
        forall|k: int| 0 <= k < s.len() ==> s[k].0 != key,
    ensures
        lookup(s, key) is None,
    decreases s.len(),
{
    if s.len() > 0 {
        assert forall|k: int| 0 <= k < s.drop_first().len() implies s.drop_first()[k].0 != key by {
            assert(s.drop_first()[k] == s[k + 1]);
        }
        lemma_lookup_absent(s.drop_first(), key);
    }
}

/// Overwriting the entry at the first index of its key changes exactly that
/// key's lookup.
pub proof fn lemma_lookup_update<K, V>(s: Seq<(K, V)>, i: int, x: (K, V), key: K)
    requires
        0 <= i < s.len(),
        s[i].0 == x.0,
        forall|k: int| 0 <= k < i ==> s[k].0 != x.0,
    ensures
        lookup(s.update(i, x), key) == if key == x.0 {
            Some(x.1)
        } else {
            lookup(s, key)
        },
    decreases s.len(),
{
    let s2 = s.update(i, x);
    if i == 0 {
        assert(s2[0] == x);
        assert(s2.drop_first() =~= s.drop_first());
    } else {
        assert(s2[0] == s[0]);
        assert(s2.drop_first() =~= s.drop_first().update(i - 1, x));
        assert forall|k: int| 0 <= k < i - 1 implies s.drop_first()[k].0 != x.0 by {
            assert(s.drop_first()[k] == s[k + 1]);
        }
        assert(s.drop_first()[i - 1] == s[i]);
        lemma_lookup_update(s.drop_first(), i - 1, x, key);
    }
}

/// Appending an entry for a key no entry carries changes exactly that key's
/// lookup.
pub proof fn lemma_lookup_push<K, V>(s: Seq<(K, V)>, x: (K, V), key: K)
    requires
        forall|k: int| 0 <= k < s.len() ==> s[k].0 != x.0,
    ensures
        lookup(s.push(x), key) == if key == x.0 {
            Some(x.1)
        } else {
            lookup(s, key)
        },
    decreases s.len(),
{
    let s2 = s.push(x);
    if s.len() == 0 {
        assert(s2[0] == x);
        assert(s2.drop_first() =~= Seq::<(K, V)>::empty());
        assert(lookup(s2.drop_first(), key) is None);
        assert(lookup(s, key) is None);
    } else {
        assert(s2[0] == s[0]);
        assert(s2.drop_first() =~= s.drop_first().push(x));
        assert forall|k: int| 0 <= k < s.drop_first().len() implies s.drop_first()[k].0 != x.0 by {
            assert(s.drop_first()[k] == s[k + 1]);
        }
        lemma_lookup_push(s.drop_first(), x, key);
    }
}

/// Removing the entry at a key's index empties that key's lookup and leaves
/// every other key's lookup unchanged.
pub proof fn lemma_lookup_remove<K, V>(s: Seq<(K, V)>, i: int, key: K)
    requires
        0 <= i < s.len(),
        unique_keys(s),
    ensures
        lookup(s.remove(i), key) == if key == s[i].0 {
            None::<V>
        } else {
            lookup(s, key)
        },
    decreases s.len(),
{
    let s2 = s.remove(i);
    s.remove_ensures(i);
    if i == 0 {
        assert(s2 =~= s.drop_first());
        if key == s[0].0 {
            assert forall|k: int| 0 <= k < s.drop_first().len() implies s.drop_first()[k].0 != key by {
                assert(s.drop_first()[k] == s[k + 1]);
            }
            lemma_lookup_absent(s.drop_first(), key);
        }
    } else {
        assert(s2[0] == s[0]);
        assert(s2.drop_first() =~= s.drop_first().remove(i - 1));
        assert forall|a: int, b: int|
            0 <= a < b < s.drop_first().len() implies s.drop_first()[a].0 != s.drop_first()[b].0 by {
            assert(s.drop_first()[a] == s[a + 1]);
            assert(s.drop_first()[b] == s[b + 1]);
        }
        assert(s.drop_first()[i - 1] == s[i]);
        lemma_lookup_remove(s.drop_first(), i - 1, key);
    }
}

/// Key uniqueness survives overwriting an entry with one that carries the
/// same key.
pub proof fn lemma_update_same_key_unique<K, V>(s: Seq<(K, V)>, i: int, x: (K, V))
    requires
        0 <= i < s.len(),
        s[i].0 == x.0,
        unique_keys(s),
    ensures
        unique_keys(s.update(i, x)),
{
    let s2 = s.update(i, x);
    assert forall|a: int, b: int| 0 <= a < b < s2.len() implies s2[a].0 != s2[b].0 by {
        assert(s2[a].0 == s[a].0);
        assert(s2[b].0 == s[b].0);
    }
}

/// Key uniqueness survives appending an entry for a fresh key.
pub proof fn lemma_push_fresh_key_unique<K, V>(s: Seq<(K, V)>, x: (K, V))
    requires
        forall|k: int| 0 <= k < s.len() ==> s[k].0 != x.0,
        unique_keys(s),
    ensures
        unique_keys(s.push(x)),
{
    let s2 = s.push(x);
    assert forall|a: int, b: int| 0 <= a < b < s2.len() implies s2[a].0 != s2[b].0 by {
        if b < s.len() {
            assert(s2[a] == s[a]);
            assert(s2[b] == s[b]);
        } else {
            assert(s2[a] == s[a]);
            assert(s2[b] == x);
        }
    }
}

/// Key uniqueness survives removing an entry.
pub proof fn lemma_remove_unique<K, V>(s: Seq<(K, V)>, i: int)
    requires
        0 <= i < s.len(),
        unique_keys(s),
    ensures
        unique_keys(s.remove(i)),
{
    let s2 = s.remove(i);
    s.remove_ensures(i);
    assert forall|a: int, b: int| 0 <= a < b < s2.len() implies s2[a].0 != s2[b].0 by {
        let a2 = if a < i { a } else { a + 1 };
        let b2 = if b < i { b } else { b + 1 };
        assert(s2[a] == s[a2]);
        assert(s2[b] == s[b2]);
    }
}

} // verus!
