use vstd::prelude::*;

verus! {

/// What `key` is bound to in a list of bindings where a later binding
/// shadows an earlier one of the same key.
pub open spec fn find<V>(entries: Seq<(Seq<char>, V)>, key: Seq<char>) -> Option<V>
    decreases entries.len(),
{
    if entries.len() == 0 {
        None
    } else if entries.last().0 == key {
        Some(entries.last().1)
    } else {
        find(entries.drop_last(), key)
    }
}

/// The map that a list of bindings stands for.
pub open spec fn as_map<V>(entries: Seq<(Seq<char>, V)>) -> Map<Seq<char>, V> {
    Map::new(|k: Seq<char>| find(entries, k) is Some, |k: Seq<char>| find(entries, k)->0)
}

/// No binding of `entries` from index `from` on has the key `key`.
pub open spec fn absent_from<V>(entries: Seq<(Seq<char>, V)>, key: Seq<char>, from: int) -> bool {
    forall|j: int| from <= j < entries.len() ==> (#[trigger] entries[j]).0 != key
}

/// A key that no binding has is bound to nothing.
pub proof fn lemma_find_absent<V>(entries: Seq<(Seq<char>, V)>, key: Seq<char>)
    requires
        absent_from(entries, key, 0),
    ensures
        find(entries, key) is None,
    decreases entries.len(),
{
    if entries.len() > 0 {
        assert(entries.last() == entries[entries.len() - 1]);
        lemma_find_absent(entries.drop_last(), key);
    }
}

/// The last binding of a key is the one that counts.
pub proof fn lemma_find_at<V>(entries: Seq<(Seq<char>, V)>, i: int)
    requires
        0 <= i < entries.len(),
        absent_from(entries, entries[i].0, i + 1),
    ensures
        find(entries, entries[i].0) == Some(entries[i].1),
    decreases entries.len(),
{
    if i < entries.len() - 1 {
        assert(entries.last() == entries[entries.len() - 1]);
        lemma_find_at(entries.drop_last(), i);
    }
}

/// Appending a binding is an insertion into the map.
pub proof fn lemma_push<V>(entries: Seq<(Seq<char>, V)>, key: Seq<char>, value: V)
    ensures
        as_map(entries.push((key, value))) == as_map(entries).insert(key, value),
{
    let after = entries.push((key, value));
    assert(after.drop_last() =~= entries);
    assert(as_map(after) =~= as_map(entries).insert(key, value));
}

/// What a key is bound to after the value of the binding at `i` was replaced.
proof fn lemma_find_update<V>(entries: Seq<(Seq<char>, V)>, i: int, value: V, key: Seq<char>)
    requires
        0 <= i < entries.len(),
        absent_from(entries, entries[i].0, i + 1),
    ensures
        find(entries.update(i, (entries[i].0, value)), key) == if key == entries[i].0 {
            Some(value)
        } else {
            find(entries, key)
        },
    decreases entries.len(),
{
    let after = entries.update(i, (entries[i].0, value));
    if i == entries.len() - 1 {
        assert(after.drop_last() =~= entries.drop_last());
        if key == entries[i].0 {
        } else {
        }
    } else {
        assert(entries.last() == entries[entries.len() - 1]);
        assert(after.drop_last() =~= entries.drop_last().update(i, (entries[i].0, value)));
        lemma_find_update(entries.drop_last(), i, value, key);
    }
}

/// Replacing the value of the last binding of a key is an insertion into
/// the map.
pub proof fn lemma_update<V>(entries: Seq<(Seq<char>, V)>, i: int, value: V)
    requires
        0 <= i < entries.len(),
        absent_from(entries, entries[i].0, i + 1),
    ensures
        as_map(entries.update(i, (entries[i].0, value))) == as_map(entries).insert(
            entries[i].0,
            value,
        ),
{
    let after = entries.update(i, (entries[i].0, value));
    assert forall|k: Seq<char>| #[trigger]
        find(after, k) == if k == entries[i].0 {
            Some(value)
        } else {
            find(entries, k)
        } by {
        lemma_find_update(entries, i, value, k);
    }
    assert(as_map(after) =~= as_map(entries).insert(entries[i].0, value));
}

} // verus!
