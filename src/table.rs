use vstd::prelude::*;

verus! {

/// The value of the first entry whose key is `key`.
pub open spec fn lookup<V>(entries: Seq<(String, V)>, key: Seq<char>) -> Option<V>
    decreases entries.len(),
{
    if entries.len() == 0 {
        None
    } else if entries[0].0@ == key {
        Some(entries[0].1)
    } else {
        lookup(entries.drop_first(), key)
    }
}

/// Whether no two entries share a key.
pub open spec fn unique_keys<V>(entries: Seq<(String, V)>) -> bool {
    forall|i: int, j: int|
        0 <= i < entries.len() && 0 <= j < entries.len() && i != j ==> entries[i].0@
            != entries[j].0@
}

/// Whether some entry has the key `key`.
pub open spec fn has_key<V>(entries: Seq<(String, V)>, key: Seq<char>) -> bool {
    exists|i: int| 0 <= i < entries.len() && entries[i].0@ == key
}

pub proof fn lemma_lookup_none<V>(entries: Seq<(String, V)>, key: Seq<char>)
    requires
        !has_key(entries, key),
    ensures
        lookup(entries, key) is None,
    decreases entries.len(),
{
    if entries.len() > 0 {
        assert(!has_key(entries.drop_first(), key)) by {
            if has_key(entries.drop_first(), key) {
                let i = choose|i: int|
                    0 <= i < entries.drop_first().len() && entries.drop_first()[i].0@ == key;
                assert(entries[i + 1].0@ == key);
            }
        }
        lemma_lookup_none(entries.drop_first(), key);
    }
}

pub proof fn lemma_lookup_push<V>(entries: Seq<(String, V)>, k: String, v: V, q: Seq<char>)
    ensures
        lookup(entries.push((k, v)), q) == (if lookup(entries, q) is Some {
            lookup(entries, q)
        } else if k@ == q {
            Some(v)
        } else {
            None
        }),
    decreases entries.len(),
{
    if entries.len() > 0 {
        assert(entries.push((k, v)).drop_first() =~= entries.drop_first().push((k, v)));
        lemma_lookup_push(entries.drop_first(), k, v, q);
    } else {
        assert(entries.push((k, v)).drop_first() =~= entries);
    }
}

pub proof fn lemma_lookup_update<V>(entries: Seq<(String, V)>, i: int, k: String, v: V, q: Seq<char>)
    requires
        0 <= i < entries.len(),
        entries[i].0@ == k@,
        forall|j: int| 0 <= j < i ==> entries[j].0@ != k@,
    ensures
        lookup(entries.update(i, (k, v)), q) == (if k@ == q {
            Some(v)
        } else {
            lookup(entries, q)
        }),
    decreases entries.len(),
{
    if i > 0 {
        assert(entries.update(i, (k, v)).drop_first() =~= entries.drop_first().update(i - 1, (k, v)));
        lemma_lookup_update(entries.drop_first(), i - 1, k, v, q);
    } else {
        assert(entries.update(i, (k, v)).drop_first() =~= entries.drop_first());
    }
}

/// The index of the first entry whose key is `key`.
pub fn find_index<V>(entries: &Vec<(String, V)>, key: &String) -> (r: Option<usize>)
    ensures
        r matches Some(i) ==> i < entries@.len() && entries@[i as int].0@ == key@ && forall|
            j: int,
        |
            0 <= j < i ==> entries@[j].0@ != key@,
        r is None ==> !has_key(entries@, key@),
{
    let mut i: usize = 0;
    while i < entries.len()
        invariant
            i <= entries@.len(),
            forall|j: int| 0 <= j < i ==> entries@[j].0@ != key@,
        decreases entries@.len() - i,
    {
        if entries[i].0 == *key {
            return Some(i);
        }
        i = i + 1;
    }
    None
}

/// The value under `key`, found by a scan from the front.
pub fn get_entry<'a, V>(entries: &'a Vec<(String, V)>, key: &String) -> (r: Option<&'a V>)
    ensures
        r matches Some(v) ==> lookup(entries@, key@) == Some(*v),
        r is None ==> lookup(entries@, key@) is None,
{
    match find_index(entries, key) {
        Some(i) => {
            proof {
                lemma_lookup_first(entries@, i as int, key@);
            }
            Some(&entries[i].1)
        },
        None => {
            proof {
                lemma_lookup_none(entries@, key@);
            }
            None
        },
    }
}

pub proof fn lemma_lookup_first<V>(entries: Seq<(String, V)>, i: int, key: Seq<char>)
    requires
        0 <= i < entries.len(),
        entries[i].0@ == key,
        forall|j: int| 0 <= j < i ==> entries[j].0@ != key,
    ensures
        lookup(entries, key) == Some(entries[i].1),
    decreases i,
{
    if i > 0 {
        lemma_lookup_first(entries.drop_first(), i - 1, key);
    }
}

/// Sets the value under `key`, in place where the key is present and at the
/// end where it is not; every other key keeps its value.
pub fn set_entry<V>(entries: &mut Vec<(String, V)>, key: String, value: V)
    ensures
        unique_keys(old(entries)@) ==> unique_keys(final(entries)@),
        forall|q: Seq<char>|
            #![auto]
            lookup(final(entries)@, q) == (if q == key@ {
                Some(value)
            } else {
                lookup(old(entries)@, q)
            }),
{
    match find_index(entries, &key) {
        Some(i) => {
            let ghost k = key;
            entries.set(i, (key, value));
            assert forall|q: Seq<char>| #![auto]
                lookup(final(entries)@, q) == (if q == k@ {
                    Some(value)
                } else {
                    lookup(old(entries)@, q)
                }) by {
                lemma_lookup_update(old(entries)@, i as int, k, value, q);
            }
            assert forall|a: int| 0 <= a < final(entries)@.len() implies final(entries)@[a].0@
                == old(entries)@[a].0@ by {}
        },
        None => {
            let ghost k = key;
            entries.push((key, value));
            assert forall|q: Seq<char>| #![auto]
                lookup(final(entries)@, q) == (if q == k@ {
                    Some(value)
                } else {
                    lookup(old(entries)@, q)
                }) by {
                lemma_lookup_push(old(entries)@, k, value, q);
                lemma_lookup_none(old(entries)@, k@);
            }
            assert(unique_keys(old(entries)@) ==> unique_keys(final(entries)@)) by {
                if unique_keys(old(entries)@) {
                    let n = old(entries)@.len();
                    assert forall|a: int, b: int|
                        0 <= a < final(entries)@.len() && 0 <= b < final(entries)@.len() && a
                            != b implies final(entries)@[a].0@ != final(entries)@[b].0@ by {
                        if a == n {
                            assert(old(entries)@[b].0@ != k@);
                        } else if b == n {
                            assert(old(entries)@[a].0@ != k@);
                        }
                    }
                }
            }
        },
    }
}

} // verus!
