use vstd::prelude::*;

verus! {

/// No key occurs twice in the list.
pub open spec fn keys_distinct<K, V>(s: Seq<(K, V)>) -> bool {
    forall|i: int, j: int| 0 <= i < j < s.len() ==> s[i].0 != s[j].0
}

/// Whether the key occurs in the list.
pub open spec fn has_key<K, V>(s: Seq<(K, V)>, k: K) -> bool {
    exists|i: int| 0 <= i < s.len() && (#[trigger] s[i]).0 == k
}

/// A place at which the key occurs, if it does.
pub open spec fn index_of<K, V>(s: Seq<(K, V)>, k: K) -> int {
    choose|i: int| 0 <= i < s.len() && (#[trigger] s[i]).0 == k
}

/// The list read as a map from each key to the value beside it.
pub open spec fn as_map<K, V>(s: Seq<(K, V)>) -> Map<K, V> {
    Map::new(|k: K| has_key(s, k), |k: K| s[index_of(s, k)].1)
}

/// Each entry of a list without repeated keys is found under its key.
pub proof fn lemma_entry<K, V>(s: Seq<(K, V)>, i: int)
    requires
        keys_distinct(s),
        0 <= i < s.len(),
    ensures
        has_key(s, s[i].0),
        index_of(s, s[i].0) == i,
        as_map(s).contains_key(s[i].0),
        as_map(s)[s[i].0] == s[i].1,
{
    assert(s[i].0 == s[i].0);
    let j = index_of(s, s[i].0);
    assert(0 <= j < s.len() && s[j].0 == s[i].0);
    if j < i {
        assert(s[j].0 != s[i].0);
    } else if i < j {
        assert(s[i].0 != s[j].0);
    }
}

/// The empty list is the empty map.
pub proof fn lemma_empty<K, V>(s: Seq<(K, V)>)
    requires
        s.len() == 0,
    ensures
        keys_distinct(s),
        as_map(s) =~= Map::<K, V>::empty(),
{
}

/// Appending an entry with a new key inserts it into the map.
pub proof fn lemma_push<K, V>(s: Seq<(K, V)>, e: (K, V))
    requires
        keys_distinct(s),
        !has_key(s, e.0),
    ensures
        keys_distinct(s.push(e)),
        as_map(s.push(e)) =~= as_map(s).insert(e.0, e.1),
{
    let t = s.push(e);
    assert forall|i: int, j: int| 0 <= i < j < t.len() implies t[i].0 != t[j].0 by {
        if j == s.len() {
            assert(s[i].0 != e.0);
        }
    }
    assert forall|k: K| as_map(t).contains_key(k) <==> as_map(s).insert(e.0, e.1).contains_key(
        k,
    ) by {
        if has_key(t, k) {
            let i = index_of(t, k);
            if i < s.len() {
                assert(s[i].0 == k);
            }
        }
        if has_key(s, k) {
            let i = index_of(s, k);
            assert(t[i].0 == k);
        }
        if k == e.0 {
            assert(t[s.len() as int].0 == k);
        }
    }
    assert forall|k: K| as_map(t).contains_key(k) implies as_map(t)[k] == as_map(s).insert(
        e.0,
        e.1,
    )[k] by {
        let i = index_of(t, k);
        lemma_entry(t, i);
        if i < s.len() {
            lemma_entry(s, i);
        }
    }
}

/// Taking an entry out of the list removes its key from the map.
pub proof fn lemma_remove<K, V>(s: Seq<(K, V)>, i: int)
    requires
        keys_distinct(s),
        0 <= i < s.len(),
    ensures
        keys_distinct(s.remove(i)),
        !has_key(s.remove(i), s[i].0),
        as_map(s.remove(i)) =~= as_map(s).remove(s[i].0),
{
    let t = s.remove(i);
    assert forall|a: int, b: int| 0 <= a < b < t.len() implies t[a].0 != t[b].0 by {
        let a2 = if a < i { a } else { a + 1 };
        let b2 = if b < i { b } else { b + 1 };
        assert(s[a2].0 != s[b2].0);
    }
    assert forall|j: int| 0 <= j < t.len() implies (#[trigger] t[j]).0 != s[i].0 by {
        let j2 = if j < i { j } else { j + 1 };
        if j2 < i {
            assert(s[j2].0 != s[i].0);
        } else {
            assert(s[i].0 != s[j2].0);
        }
    }
    assert forall|k: K| as_map(t).contains_key(k) <==> as_map(s).remove(s[i].0).contains_key(
        k,
    ) by {
        if has_key(t, k) {
            let j = index_of(t, k);
            let j2 = if j < i { j } else { j + 1 };
            assert(s[j2].0 == k);
        }
        if has_key(s, k) && k != s[i].0 {
            let j = index_of(s, k);
            let j2 = if j < i { j } else { j - 1 };
            assert(t[j2].0 == k);
        }
    }
    assert forall|k: K| as_map(t).contains_key(k) implies as_map(t)[k] == as_map(s).remove(
        s[i].0,
    )[k] by {
        let j = index_of(t, k);
        lemma_entry(t, j);
        let j2 = if j < i { j } else { j + 1 };
        lemma_entry(s, j2);
    }
}

/// Putting an entry with a new key anywhere into the list inserts it into
/// the map.
pub proof fn lemma_insert<K, V>(s: Seq<(K, V)>, i: int, e: (K, V))
    requires
        keys_distinct(s),
        !has_key(s, e.0),
        0 <= i <= s.len(),
    ensures
        keys_distinct(s.insert(i, e)),
        as_map(s.insert(i, e)) =~= as_map(s).insert(e.0, e.1),
{
    let t = s.insert(i, e);
    assert forall|j: int| 0 <= j < s.len() implies (#[trigger] s[j]).0 != e.0 by {
        if s[j].0 == e.0 {
            assert(has_key(s, e.0));
        }
    }
    assert forall|a: int, b: int| 0 <= a < b < t.len() implies t[a].0 != t[b].0 by {
        let a2 = if a < i { a } else { a - 1 };
        let b2 = if b < i { b } else { b - 1 };
        if a == i {
            assert(t[b] == s[b2]);
        } else if b == i {
            assert(t[a] == s[a2]);
        } else {
            assert(t[a] == s[a2] && t[b] == s[b2]);
            assert(s[a2].0 != s[b2].0);
        }
    }
    assert forall|k: K| as_map(t).contains_key(k) <==> as_map(s).insert(e.0, e.1).contains_key(
        k,
    ) by {
        if has_key(t, k) {
            let j = index_of(t, k);
            if j != i {
                let j2 = if j < i { j } else { j - 1 };
                assert(s[j2].0 == k);
            }
        }
        if has_key(s, k) {
            let j = index_of(s, k);
            let j2 = if j < i { j } else { j + 1 };
            assert(t[j2].0 == k);
        }
        if k == e.0 {
            assert(t[i].0 == k);
        }
    }
    assert forall|k: K| as_map(t).contains_key(k) implies as_map(t)[k] == as_map(s).insert(
        e.0,
        e.1,
    )[k] by {
        let j = index_of(t, k);
        lemma_entry(t, j);
        if j != i {
            let j2 = if j < i { j } else { j - 1 };
            assert(t[j] == s[j2]);
            lemma_entry(s, j2);
        }
    }
}

} // verus!
