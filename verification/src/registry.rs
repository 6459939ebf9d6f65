//! Name-keyed registries kept as vectors of `(name, value)` entries with
//! distinct names, and their meaning as finite maps.
use vstd::prelude::*;

verus! {

/// The map that a list of entries with distinct keys stands for.
pub open spec fn to_map<V>(entries: Seq<(Seq<char>, V)>) -> Map<Seq<char>, V>
    decreases entries.len(),
{
    if entries.len() == 0 {
        Map::empty()
    } else {
        to_map(entries.drop_last()).insert(entries.last().0, entries.last().1)
    }
}

/// No key occurs twice.
pub open spec fn keys_distinct<V>(entries: Seq<(Seq<char>, V)>) -> bool {
    forall|i: int, j: int|
        0 <= i < entries.len() && 0 <= j < entries.len() && i != j ==> #[trigger] entries[i].0
            != #[trigger] entries[j].0
}

/// Whether some entry has key `k`.
pub open spec fn has_key<V>(entries: Seq<(Seq<char>, V)>, k: Seq<char>) -> bool {
    exists|i: int| 0 <= i < entries.len() && #[trigger] entries[i].0 == k
}

/// The map holds exactly the keys of the entries.
pub proof fn lemma_to_map_dom<V>(entries: Seq<(Seq<char>, V)>, k: Seq<char>)
    ensures
        to_map(entries).contains_key(k) <==> has_key(entries, k),
    decreases entries.len(),
{
    if entries.len() > 0 {
        let dl = entries.drop_last();
        lemma_to_map_dom(dl, k);
        if has_key(dl, k) {
            let i = choose|i: int| 0 <= i < dl.len() && #[trigger] dl[i].0 == k;
            assert(entries[i].0 == k);
        }
        if has_key(entries, k) && entries.last().0 != k {
            let i = choose|i: int| 0 <= i < entries.len() && #[trigger] entries[i].0 == k;
            assert(dl[i].0 == k);
        }
    }
}

/// With distinct keys, the map gives each key the value of its entry.
pub proof fn lemma_to_map_value<V>(entries: Seq<(Seq<char>, V)>, i: int)
    requires
        keys_distinct(entries),
        0 <= i < entries.len(),
    ensures
        to_map(entries).contains_key(entries[i].0),
        to_map(entries)[entries[i].0] == entries[i].1,
    decreases entries.len(),
{
    let dl = entries.drop_last();
    if i < entries.len() - 1 {
        assert(entries[i].0 != entries[entries.len() - 1].0);
        assert(dl[i] == entries[i]);
        lemma_to_map_value(dl, i);
    }
}

/// The map of a list of entries is finite.
pub proof fn lemma_to_map_finite<V>(entries: Seq<(Seq<char>, V)>)
    ensures
        to_map(entries).dom().finite(),
    decreases entries.len(),
{
    if entries.len() > 0 {
        lemma_to_map_finite(entries.drop_last());
    }
}

/// With distinct keys, the map has one key per entry.
pub proof fn lemma_to_map_len<V>(entries: Seq<(Seq<char>, V)>)
    requires
        keys_distinct(entries),
    ensures
        to_map(entries).len() == entries.len(),
    decreases entries.len(),
{
    if entries.len() > 0 {
        let dl = entries.drop_last();
        let k = entries.last().0;
        lemma_to_map_len(dl);
        lemma_to_map_finite(dl);
        lemma_to_map_dom(dl, k);
        if has_key(dl, k) {
            let i = choose|i: int| 0 <= i < dl.len() && #[trigger] dl[i].0 == k;
            assert(entries[i].0 == entries[entries.len() - 1].0);
        }
    }
}

/// Dropping entry `i` drops its key from the map.
pub proof fn lemma_to_map_remove<V>(entries: Seq<(Seq<char>, V)>, i: int)
    requires
        keys_distinct(entries),
        0 <= i < entries.len(),
    ensures
        keys_distinct(entries.remove(i)),
        to_map(entries.remove(i)) == to_map(entries).remove(entries[i].0),
{
    let r = entries.remove(i);
    let k = entries[i].0;
    assert forall|a: int, b: int|
        0 <= a < r.len() && 0 <= b < r.len() && a != b implies #[trigger] r[a].0 != #[trigger] r[b].0 by {
        let a2 = if a < i { a } else { a + 1 };
        let b2 = if b < i { b } else { b + 1 };
        assert(r[a] == entries[a2]);
        assert(r[b] == entries[b2]);
    }
    assert forall|key: Seq<char>|
        #[trigger] to_map(r).contains_key(key) <==> to_map(entries).remove(k).contains_key(key) by {
        lemma_to_map_dom(r, key);
        lemma_to_map_dom(entries, key);
        if has_key(r, key) {
            let a = choose|a: int| 0 <= a < r.len() && #[trigger] r[a].0 == key;
            let a2 = if a < i { a } else { a + 1 };
            assert(r[a] == entries[a2]);
            assert(entries[a2].0 == key);
        }
        if has_key(entries, key) && key != k {
            let a = choose|a: int| 0 <= a < entries.len() && #[trigger] entries[a].0 == key;
            let a2 = if a < i { a } else { a - 1 };
            assert(r[a2] == entries[a]);
            assert(r[a2].0 == key);
        }
    }
    assert forall|key: Seq<char>| #[trigger] to_map(r).contains_key(key) implies to_map(r)[key]
        == to_map(entries)[key] by {
        lemma_to_map_dom(r, key);
        let a = choose|a: int| 0 <= a < r.len() && #[trigger] r[a].0 == key;
        let a2 = if a < i { a } else { a + 1 };
        assert(r[a] == entries[a2]);
        lemma_to_map_value(r, a);
        lemma_to_map_value(entries, a2);
    }
    assert(to_map(r) =~= to_map(entries).remove(k));
}

/// Replacing the value of entry `i` replaces it in the map.
pub proof fn lemma_to_map_update<V>(entries: Seq<(Seq<char>, V)>, i: int, v: V)
    requires
        keys_distinct(entries),
        0 <= i < entries.len(),
    ensures
        keys_distinct(entries.update(i, (entries[i].0, v))),
        to_map(entries.update(i, (entries[i].0, v))) == to_map(entries).insert(entries[i].0, v),
{
    let k = entries[i].0;
    let r = entries.update(i, (k, v));
    assert forall|a: int, b: int|
        0 <= a < r.len() && 0 <= b < r.len() && a != b implies #[trigger] r[a].0 != #[trigger] r[b].0 by {
        assert(r[a].0 == entries[a].0);
        assert(r[b].0 == entries[b].0);
    }
    assert forall|key: Seq<char>|
        #[trigger] to_map(r).contains_key(key) <==> to_map(entries).insert(k, v).contains_key(key) by {
        lemma_to_map_dom(r, key);
        lemma_to_map_dom(entries, key);
        if has_key(r, key) {
            let a = choose|a: int| 0 <= a < r.len() && #[trigger] r[a].0 == key;
            assert(entries[a].0 == key);
        }
        if has_key(entries, key) {
            let a = choose|a: int| 0 <= a < entries.len() && #[trigger] entries[a].0 == key;
            assert(r[a].0 == key);
        }
        if key == k {
            assert(r[i].0 == key);
        }
    }
    assert forall|key: Seq<char>| #[trigger] to_map(r).contains_key(key) implies to_map(r)[key]
        == to_map(entries).insert(k, v)[key] by {
        lemma_to_map_dom(r, key);
        let a = choose|a: int| 0 <= a < r.len() && #[trigger] r[a].0 == key;
        lemma_to_map_value(r, a);
        if a != i {
            assert(r[a] == entries[a]);
            lemma_to_map_value(entries, a);
        }
    }
    assert(to_map(r) =~= to_map(entries).insert(k, v));
}

/// Appending an entry with a new key keeps the keys distinct.
pub proof fn lemma_push_distinct<V>(entries: Seq<(Seq<char>, V)>, k: Seq<char>, v: V)
    requires
        keys_distinct(entries),
        !has_key(entries, k),
    ensures
        keys_distinct(entries.push((k, v))),
        to_map(entries.push((k, v))) == to_map(entries).insert(k, v),
{
    let r = entries.push((k, v));
    assert(r.drop_last() =~= entries);
    assert forall|a: int, b: int|
        0 <= a < r.len() && 0 <= b < r.len() && a != b implies #[trigger] r[a].0 != #[trigger] r[b].0 by {
        if a == entries.len() {
            assert(r[b] == entries[b]);
        } else if b == entries.len() {
            assert(r[a] == entries[a]);
        } else {
            assert(r[a] == entries[a]);
            assert(r[b] == entries[b]);
        }
    }
}

/// Whether no key occurs twice among `entries`.
pub fn keys_are_distinct<V>(entries: &Vec<(String, V)>) -> (r: bool)
    ensures
        r == (forall|i: int, j: int|
            0 <= i < entries@.len() && 0 <= j < entries@.len() && i != j ==> #[trigger] entries@[i].0@
                != #[trigger] entries@[j].0@),
{
    let n = entries.len();
    let mut i: usize = 0;
    while i < n
        invariant
            n == entries@.len(),
            i <= n,
            forall|a: int, b: int|
                0 <= a < i && 0 <= b < n && a != b ==> #[trigger] entries@[a].0@
                    != #[trigger] entries@[b].0@,
        decreases n - i,
    {
        let mut j: usize = 0;
        while j < n
            invariant
                n == entries@.len(),
                i < n,
                j <= n,
                forall|a: int, b: int|
                    0 <= a < i && 0 <= b < n && a != b ==> #[trigger] entries@[a].0@
                        != #[trigger] entries@[b].0@,
                forall|b: int| 0 <= b < j && b != i ==> entries@[i as int].0@ != #[trigger] entries@[b].0@,
            decreases n - j,
        {
            if j != i && entries[i].0 == entries[j].0 {
                return false;
            }
            j = j + 1;
        }
        i = i + 1;
    }
    true
}

/// The position of the entry with key `key`, if any.
pub fn find_key<V>(entries: &Vec<(String, V)>, key: &String) -> (r: Option<usize>)
    ensures
        match r {
            Some(i) => i < entries@.len() && entries@[i as int].0@ == key@,
            None => forall|i: int| 0 <= i < entries@.len() ==> entries@[i].0@ != key@,
        },
{
    let mut i: usize = 0;
    while i < entries.len()
        invariant
            i <= entries@.len(),
            forall|j: int| 0 <= j < i ==> entries@[j].0@ != key@,
        decreases entries.len() - i,
    {
        if entries[i].0 == *key {
            return Some(i);
        }
        i = i + 1;
    }
    None
}

} // verus!
