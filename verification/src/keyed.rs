//! Finite maps kept as sequences of key/value entries with distinct keys.
//!
//! The node registry and the authentication bookkeeping keep their entries in
//! a `Vec`; these definitions give such a sequence its meaning as a `Map`, and
//! the lemmas say how the map changes when an entry is added, replaced or
//! removed.
use vstd::prelude::*;

verus! {

/// No key occurs twice in `s`.
pub open spec fn keys_unique<K, V>(s: Seq<(K, V)>) -> bool {
    forall|i: int, j: int|
        0 <= i < s.len() && 0 <= j < s.len() && i != j ==> #[trigger] s[i].0 != #[trigger] s[j].0
}

/// Some entry of `s` has key `k`.
pub open spec fn has_key<K, V>(s: Seq<(K, V)>, k: K) -> bool {
    exists|i: int| 0 <= i < s.len() && #[trigger] s[i].0 == k
}

/// The position of an entry of `s` with key `k`.
pub open spec fn key_index<K, V>(s: Seq<(K, V)>, k: K) -> int {
    choose|i: int| 0 <= i < s.len() && #[trigger] s[i].0 == k
}

/// The map that the entries of `s` describe.
pub open spec fn entries_map<K, V>(s: Seq<(K, V)>) -> Map<K, V> {
    Map::new(|k: K| has_key(s, k), |k: K| s[key_index(s, k)].1)
}

/// The entry at `i` is what the map holds for its key.
pub proof fn lemma_entry_lookup<K, V>(s: Seq<(K, V)>, i: int)
    requires
        keys_unique(s),
        0 <= i < s.len(),
    ensures
        entries_map(s).contains_key(s[i].0),
        entries_map(s)[s[i].0] == s[i].1,
{
    assert(has_key(s, s[i].0));
    let j = key_index(s, s[i].0);
    assert(s[j].0 == s[i].0);
}

/// Adding an entry with a new key adds that key to the map.
pub proof fn lemma_entry_push<K, V>(s: Seq<(K, V)>, k: K, v: V)
    requires
        keys_unique(s),
        !has_key(s, k),
    ensures
        keys_unique(s.push((k, v))),
        entries_map(s.push((k, v))) =~= entries_map(s).insert(k, v),
{
    let t = s.push((k, v));
    assert forall|i: int, j: int|
        0 <= i < t.len() && 0 <= j < t.len() && i != j implies #[trigger] t[i].0 != #[trigger] t[j].0 by {
        if i < s.len() && j < s.len() {
            assert(t[i] == s[i] && t[j] == s[j]);
        } else if i < s.len() {
            assert(t[i] == s[i]);
        } else if j < s.len() {
            assert(t[j] == s[j]);
        }
    }
    assert forall|x: K| #[trigger] has_key(t, x) <==> (has_key(s, x) || x == k) by {
        if has_key(s, x) {
            let i = key_index(s, x);
            assert(t[i] == s[i]);
        }
        if x == k {
            assert(t[s.len() as int].0 == k);
        }
        if has_key(t, x) && x != k {
            let i = key_index(t, x);
            assert(i < s.len());
            assert(s[i] == t[i]);
        }
    }
    assert forall|x: K| has_key(t, x) implies entries_map(t)[x] == entries_map(s).insert(k, v)[x] by {
        let i = key_index(t, x);
        if x == k {
            assert(t[s.len() as int].0 == k);
            assert(i == s.len());
        } else {
            assert(i < s.len());
            assert(s[i] == t[i]);
            lemma_entry_lookup(s, i);
        }
    }
}

/// Replacing the value of the entry at `i` replaces the value of its key.
pub proof fn lemma_entry_update<K, V>(s: Seq<(K, V)>, i: int, v: V)
    requires
        keys_unique(s),
        0 <= i < s.len(),
    ensures
        keys_unique(s.update(i, (s[i].0, v))),
        entries_map(s.update(i, (s[i].0, v))) =~= entries_map(s).insert(s[i].0, v),
{
    let k = s[i].0;
    let t = s.update(i, (k, v));
    assert forall|a: int, b: int|
        0 <= a < t.len() && 0 <= b < t.len() && a != b implies #[trigger] t[a].0 != #[trigger] t[b].0 by {
        assert(t[a].0 == s[a].0);
        assert(t[b].0 == s[b].0);
    }
    assert forall|x: K| #[trigger] has_key(t, x) <==> has_key(s, x) by {
        if has_key(s, x) {
            let j = key_index(s, x);
            assert(t[j].0 == s[j].0);
        }
        if has_key(t, x) {
            let j = key_index(t, x);
            assert(t[j].0 == s[j].0);
        }
    }
    lemma_entry_lookup(s, i);
    assert forall|x: K| has_key(t, x) implies entries_map(t)[x] == entries_map(s).insert(k, v)[x] by {
        let j = key_index(t, x);
        assert(t[j].0 == s[j].0);
        if j == i {
            assert(x == k);
        } else {
            assert(x != k);
            assert(t[j] == s[j]);
            lemma_entry_lookup(s, j);
        }
    }
}

/// Removing the entry at `i` removes its key from the map.
pub proof fn lemma_entry_remove<K, V>(s: Seq<(K, V)>, i: int)
    requires
        keys_unique(s),
        0 <= i < s.len(),
    ensures
        keys_unique(s.remove(i)),
        entries_map(s.remove(i)) =~= entries_map(s).remove(s[i].0),
{
    let k = s[i].0;
    let t = s.remove(i);
    assert forall|a: int, b: int|
        0 <= a < t.len() && 0 <= b < t.len() && a != b implies #[trigger] t[a].0 != #[trigger] t[b].0 by {
        let a2 = if a < i { a } else { a + 1 };
        let b2 = if b < i { b } else { b + 1 };
        assert(t[a] == s[a2]);
        assert(t[b] == s[b2]);
    }
    assert forall|x: K| #[trigger] has_key(t, x) <==> (has_key(s, x) && x != k) by {
        if has_key(s, x) && x != k {
            let j = key_index(s, x);
            assert(j != i);
            if j < i {
                assert(t[j] == s[j]);
            } else {
                assert(t[j - 1] == s[j]);
            }
        }
        if has_key(t, x) {
            let j = key_index(t, x);
            let j2 = if j < i { j } else { j + 1 };
            assert(t[j] == s[j2]);
            assert(j2 != i);
        }
    }
    assert forall|x: K| has_key(t, x) implies entries_map(t)[x] == entries_map(s).remove(k)[x] by {
        let j = key_index(t, x);
        let j2 = if j < i { j } else { j + 1 };
        assert(t[j] == s[j2]);
        lemma_entry_lookup(s, j2);
    }
}

/// The map of no entries is empty.
pub proof fn lemma_entries_empty<K, V>(s: Seq<(K, V)>)
    requires
        s.len() == 0,
    ensures
        keys_unique(s),
        entries_map(s) =~= Map::<K, V>::empty(),
{
}

/// A sequence of entries with distinct keys describes a finite map with one
/// key per entry.
pub proof fn lemma_entries_len<K, V>(s: Seq<(K, V)>)
    requires
        keys_unique(s),
    ensures
        entries_map(s).dom().finite(),
        entries_map(s).len() == s.len(),
    decreases s.len(),
{
    if s.len() == 0 {
        lemma_entries_empty(s);
    } else {
        let t = s.drop_last();
        let last = s.last();
        assert(keys_unique(t)) by {
            assert forall|a: int, b: int|
                0 <= a < t.len() && 0 <= b < t.len() && a != b implies #[trigger] t[a].0
                != #[trigger] t[b].0 by {
                assert(t[a] == s[a] && t[b] == s[b]);
            }
        }
        assert(!has_key(t, last.0)) by {
            if has_key(t, last.0) {
                let j = key_index(t, last.0);
                assert(t[j] == s[j]);
                assert(s[s.len() - 1] == last);
            }
        }
        lemma_entry_push(t, last.0, last.1);
        assert(t.push(last) =~= s);
        lemma_entries_len(t);
    }
}

} // verus!
