use vstd::prelude::*;

verus! {

/// The first index at which `k` stands in `keys`, if any.
pub open spec fn find_key(keys: Seq<Seq<char>>, k: Seq<char>) -> Option<int> {
    if exists|i: int| first_at(keys, k, i) {
        Some(choose|i: int| first_at(keys, k, i))
    } else {
        None
    }
}

/// `i` is the first index of `keys` that holds `k`.
pub open spec fn first_at(keys: Seq<Seq<char>>, k: Seq<char>, i: int) -> bool {
    &&& 0 <= i < keys.len()
    &&& keys[i] == k
    &&& forall|j: int| 0 <= j < i ==> keys[j] != k
}

/// No key stands twice in `keys`.
pub open spec fn unique(keys: Seq<Seq<char>>) -> bool {
    forall|i: int, j: int| 0 <= i < keys.len() && 0 <= j < keys.len() && i != j ==> keys[i] != keys[j]
}

/// The keys of a sequence of entries, in order.
pub open spec fn keys_of<V>(s: Seq<(Seq<char>, V)>) -> Seq<Seq<char>> {
    s.map_values(|e: (Seq<char>, V)| e.0)
}

/// The value that the first entry with key `k` holds.
pub open spec fn lookup<V>(s: Seq<(Seq<char>, V)>, k: Seq<char>) -> Option<V> {
    match find_key(keys_of(s), k) {
        Some(i) => Some(s[i].1),
        None => None,
    }
}

/// Writes `v` under `k`: in place where `k` stands already, else at the end.
pub open spec fn insert<V>(s: Seq<(Seq<char>, V)>, k: Seq<char>, v: V) -> Seq<(Seq<char>, V)> {
    match find_key(keys_of(s), k) {
        Some(i) => s.update(i, (k, v)),
        None => s.push((k, v)),
    }
}

/// Writes each entry of `over`, in order, over `base`.
pub open spec fn overlay<V>(base: Seq<(Seq<char>, V)>, over: Seq<(Seq<char>, V)>) -> Seq<
    (Seq<char>, V),
>
    decreases over.len(),
{
    if over.len() == 0 {
        base
    } else {
        insert(overlay(base, over.drop_last()), over.last().0, over.last().1)
    }
}

pub proof fn lemma_first_at_unique(keys: Seq<Seq<char>>, k: Seq<char>, i: int)
    requires
        first_at(keys, k, i),
    ensures
        find_key(keys, k) == Some(i),
{
    let j = choose|j: int| first_at(keys, k, j);
    assert(first_at(keys, k, j));
    if j < i {
        assert(keys[j] != k);
    } else if i < j {
        assert(keys[i] != k);
    }
}

pub proof fn lemma_absent(keys: Seq<Seq<char>>, k: Seq<char>)
    requires
        forall|j: int| 0 <= j < keys.len() ==> keys[j] != k,
    ensures
        find_key(keys, k) == None::<int>,
{
}

pub proof fn lemma_find_key_some(keys: Seq<Seq<char>>, k: Seq<char>)
    requires
        find_key(keys, k) is Some,
    ensures
        first_at(keys, k, find_key(keys, k)->0),
{
}

/// In a sequence without repeated keys, `k` is found exactly where it stands.
pub proof fn lemma_unique_found(keys: Seq<Seq<char>>, k: Seq<char>, i: int)
    requires
        unique(keys),
        0 <= i < keys.len(),
        keys[i] == k,
    ensures
        find_key(keys, k) == Some(i),
{
    assert(first_at(keys, k, i));
    lemma_first_at_unique(keys, k, i);
}

/// After writing `v` under `k`, `k` reads `v`, every other key reads as before,
/// and no key is repeated where none was.
pub proof fn lemma_insert<V>(s: Seq<(Seq<char>, V)>, k: Seq<char>, v: V)
    ensures
        lookup(insert(s, k, v), k) == Some(v),
        forall|k2: Seq<char>| k2 != k ==> lookup(insert(s, k, v), k2) == lookup(s, k2),
        unique(keys_of(s)) ==> unique(keys_of(insert(s, k, v))),
{
    let t = insert(s, k, v);
    let ks = keys_of(s);
    let kt = keys_of(t);
    match find_key(ks, k) {
        Some(i) => {
            lemma_find_key_some(ks, k);
            assert(kt =~= ks);
            assert(first_at(kt, k, i));
            lemma_first_at_unique(kt, k, i);
        },
        None => {
            assert(kt =~= ks.push(k));
            assert forall|j: int| 0 <= j < ks.len() implies ks[j] != k by {
                if ks[j] == k {
                    lemma_least_index(ks, k, j);
                }
            }
            assert(first_at(kt, k, ks.len() as int));
            lemma_first_at_unique(kt, k, ks.len() as int);
        },
    }
    assert forall|k2: Seq<char>| k2 != k implies lookup(t, k2) == lookup(s, k2) by {
        match find_key(ks, k2) {
            Some(i2) => {
                lemma_find_key_some(ks, k2);
                assert(first_at(kt, k2, i2));
                lemma_first_at_unique(kt, k2, i2);
            },
            None => {
                assert forall|j: int| 0 <= j < kt.len() implies kt[j] != k2 by {
                    if j < ks.len() && kt[j] == k2 {
                        lemma_least_index(ks, k2, j);
                        let m = choose|m: int| first_at(ks, k2, m);
                        lemma_first_at_unique(ks, k2, m);
                    }
                }
                lemma_absent(kt, k2);
            },
        }
    }
}

/// Where `k` stands at `j`, some index holds it first.
pub proof fn lemma_least_index(keys: Seq<Seq<char>>, k: Seq<char>, j: int)
    requires
        0 <= j < keys.len(),
        keys[j] == k,
    ensures
        exists|m: int| first_at(keys, k, m),
    decreases j,
{
    if exists|n: int| 0 <= n < j && keys[n] == k {
        let n = choose|n: int| 0 <= n < j && keys[n] == k;
        lemma_least_index(keys, k, n);
    } else {
        assert(first_at(keys, k, j));
    }
}

} // verus!

verus! {

/// Where `key` first stands among the keys of `entries`.
pub(crate) fn position_of<V: DeepView>(entries: &Vec<(String, V)>, key: &String) -> (r: Option<
    usize,
>)
    ensures
        match r {
            Some(i) => find_key(keys_of(entries.deep_view()), key@) == Some(i as int),
            None => find_key(keys_of(entries.deep_view()), key@) is None,
        },
        r matches Some(i) ==> i < entries.len(),
{
    let ghost keys = keys_of(entries.deep_view());
    assert(keys.len() == entries.len());
    let mut i: usize = 0;
    while i < entries.len()
        invariant
            i <= entries.len(),
            keys == keys_of(entries.deep_view()),
            keys.len() == entries.len(),
            forall|j: int| 0 <= j < i ==> keys[j] != key@,
        decreases entries.len() - i,
    {
        assert(keys[i as int] == entries[i as int].0@);
        if entries[i].0 == *key {
            assert(first_at(keys, key@, i as int));
            proof {
                lemma_first_at_unique(keys, key@, i as int);
            }
            return Some(i);
        }
        i = i + 1;
    }
    proof {
        lemma_absent(keys, key@);
    }
    None
}

/// Writes `value` under `key`: in place where `key` stands already, else at the end.
pub(crate) fn insert_entry<V: DeepView>(entries: &mut Vec<(String, V)>, key: String, value: V)
    ensures
        final(entries).deep_view() == insert(old(entries).deep_view(), key@, value.deep_view()),
{
    let ghost before = entries.deep_view();
    match position_of(entries, &key) {
        Some(i) => {
            let old_key = entries[i].0.clone();
            entries.set(i, (old_key, value));
            assert(entries.deep_view() =~= before.update(i as int, (key@, value.deep_view())));
        },
        None => {
            entries.push((key, value));
            assert(entries.deep_view() =~= before.push((key@, value.deep_view())));
        },
    }
}

} // verus!
