use vstd::prelude::*;

verus! {

/// First-match lookup in an association list keyed by plain identifiers.
pub open spec fn assoc_lookup<V>(s: Seq<(u64, V)>, key: u64) -> Option<V>
    decreases s.len(),
{
    if s.len() == 0 {
        None
    } else if s[0].0 == key {
        Some(s[0].1)
    } else {
        assoc_lookup(s.drop_first(), key)
    }
}

pub open spec fn assoc_has<V>(s: Seq<(u64, V)>, key: u64) -> bool {
    exists|j: int| 0 <= j < s.len() && s[j].0 == key
}

pub open spec fn distinct_keys<V>(s: Seq<(u64, V)>) -> bool {
    forall|i: int, j: int| 0 <= i < j < s.len() ==> s[i].0 != s[j].0
}

pub proof fn lemma_assoc_absent<V>(s: Seq<(u64, V)>, key: u64)
    requires
        forall|j: int| 0 <= j < s.len() ==> s[j].0 != key,
    ensures
        assoc_lookup(s, key) is None,
    decreases s.len(),
{
    if s.len() > 0 {
        assert(forall|j: int| 0 <= j < s.drop_first().len() ==> s.drop_first()[j].0 != key);
        lemma_assoc_absent(s.drop_first(), key);
    }
}

pub proof fn lemma_assoc_first_match<V>(s: Seq<(u64, V)>, key: u64, i: int)
    requires
        0 <= i < s.len(),
        s[i].0 == key,
        forall|j: int| 0 <= j < i ==> s[j].0 != key,
    ensures
        assoc_lookup(s, key) == Some(s[i].1),
    decreases i,
{
    if i > 0 {
        assert(s.drop_first()[i - 1] == s[i]);
        assert(forall|j: int| 0 <= j < i - 1 ==> s.drop_first()[j].0 != key);
        lemma_assoc_first_match(s.drop_first(), key, i - 1);
    }
}

pub proof fn lemma_assoc_update<V>(s: Seq<(u64, V)>, i: int, p: (u64, V))
    requires
        0 <= i < s.len(),
        s[i].0 == p.0,
        forall|j: int| 0 <= j < s.len() && j != i ==> s[j].0 != p.0,
    ensures
        assoc_lookup(s.update(i, p), p.0) == Some(p.1),
        forall|c: u64| c != p.0 ==> assoc_lookup(s.update(i, p), c) == assoc_lookup(s, c),
    decreases i,
{
    let t = s.update(i, p);
    if i == 0 {
        assert(t[0] == p);
        assert(t.drop_first() =~= s.drop_first());
        assert forall|c: u64| c != p.0 implies assoc_lookup(t, c) == assoc_lookup(s, c) by {
            assert(assoc_lookup(t, c) == assoc_lookup(t.drop_first(), c));
            assert(assoc_lookup(s, c) == assoc_lookup(s.drop_first(), c));
        }
    } else {
        assert(t.drop_first() =~= s.drop_first().update(i - 1, p));
        assert(forall|j: int| 0 <= j < s.drop_first().len() && j != i - 1 ==> s.drop_first()[j].0
            != p.0);
        lemma_assoc_update(s.drop_first(), i - 1, p);
        assert(s[0].0 != p.0);
        assert(t[0] == s[0]);
        assert(assoc_lookup(t, p.0) == assoc_lookup(t.drop_first(), p.0));
        assert forall|c: u64| c != p.0 implies assoc_lookup(t, c) == assoc_lookup(s, c) by {
            if s[0].0 == c {
                assert(assoc_lookup(t, c) == Some(t[0].1));
                assert(assoc_lookup(s, c) == Some(s[0].1));
            } else {
                assert(assoc_lookup(t, c) == assoc_lookup(t.drop_first(), c));
                assert(assoc_lookup(s, c) == assoc_lookup(s.drop_first(), c));
            }
        }
    }
}

pub proof fn lemma_assoc_push<V>(s: Seq<(u64, V)>, p: (u64, V))
    ensures
        forall|c: u64| c != p.0 ==> assoc_lookup(s.push(p), c) == assoc_lookup(s, c),
        !assoc_has(s, p.0) ==> assoc_lookup(s.push(p), p.0) == Some(p.1),
    decreases s.len(),
{
    let t = s.push(p);
    if s.len() == 0 {
        assert(t[0] == p);
        assert(t.drop_first() =~= Seq::<(u64, V)>::empty());
        assert forall|c: u64| c != p.0 implies assoc_lookup(t, c) == assoc_lookup(s, c) by {
            assert(assoc_lookup(t, c) == assoc_lookup(t.drop_first(), c));
        }
    } else {
        assert(t.drop_first() =~= s.drop_first().push(p));
        lemma_assoc_push(s.drop_first(), p);
        assert(t[0] == s[0]);
        assert forall|c: u64| c != p.0 implies assoc_lookup(t, c) == assoc_lookup(s, c) by {
            if s[0].0 == c {
                assert(assoc_lookup(t, c) == Some(t[0].1));
            } else {
                assert(assoc_lookup(t, c) == assoc_lookup(t.drop_first(), c));
                assert(assoc_lookup(s, c) == assoc_lookup(s.drop_first(), c));
            }
        }
        if !assoc_has(s, p.0) {
            assert(s[0].0 != p.0);
            assert(!assoc_has(s.drop_first(), p.0)) by {
                assert(forall|j: int| 0 <= j < s.drop_first().len() ==> s.drop_first()[j] == s[j
                    + 1]);
            }
            assert(assoc_lookup(t, p.0) == assoc_lookup(t.drop_first(), p.0));
        }
    }
}

pub proof fn lemma_assoc_insert<V>(s: Seq<(u64, V)>, i: int, p: (u64, V))
    requires
        0 <= i <= s.len(),
        forall|j: int| 0 <= j < i ==> s[j].0 != p.0,
    ensures
        assoc_lookup(s.insert(i, p), p.0) == Some(p.1),
        forall|c: u64| c != p.0 ==> assoc_lookup(s.insert(i, p), c) == assoc_lookup(s, c),
    decreases i,
{
    let t = s.insert(i, p);
    if i == 0 {
        assert(t[0] == p);
        assert(t.drop_first() =~= s);
        assert forall|c: u64| c != p.0 implies assoc_lookup(t, c) == assoc_lookup(s, c) by {
            assert(assoc_lookup(t, c) == assoc_lookup(t.drop_first(), c));
        }
    } else {
        assert(t.drop_first() =~= s.drop_first().insert(i - 1, p));
        assert(forall|j: int| 0 <= j < i - 1 ==> s.drop_first()[j].0 != p.0);
        lemma_assoc_insert(s.drop_first(), i - 1, p);
        assert(t[0] == s[0]);
        assert(s[0].0 != p.0);
        assert(assoc_lookup(t, p.0) == assoc_lookup(t.drop_first(), p.0));
        assert forall|c: u64| c != p.0 implies assoc_lookup(t, c) == assoc_lookup(s, c) by {
            if s[0].0 == c {
                assert(assoc_lookup(t, c) == Some(t[0].1));
            } else {
                assert(assoc_lookup(t, c) == assoc_lookup(t.drop_first(), c));
                assert(assoc_lookup(s, c) == assoc_lookup(s.drop_first(), c));
            }
        }
    }
}

pub proof fn lemma_assoc_remove<V>(s: Seq<(u64, V)>, i: int)
    requires
        0 <= i < s.len(),
        forall|j: int| 0 <= j < s.len() && j != i ==> s[j].0 != s[i].0,
    ensures
        assoc_lookup(s.remove(i), s[i].0) is None,
        forall|c: u64| c != s[i].0 ==> assoc_lookup(s.remove(i), c) == assoc_lookup(s, c),
    decreases i,
{
    let t = s.remove(i);
    let key = s[i].0;
    if i == 0 {
        assert(t =~= s.drop_first());
        assert(forall|j: int| 0 <= j < t.len() ==> t[j].0 != key);
        lemma_assoc_absent(t, key);
    } else {
        assert(t.drop_first() =~= s.drop_first().remove(i - 1));
        assert(s.drop_first()[i - 1] == s[i]);
        assert(forall|j: int| 0 <= j < s.drop_first().len() && j != i - 1 ==> s.drop_first()[j].0
            != key);
        lemma_assoc_remove(s.drop_first(), i - 1);
        assert(t[0] == s[0]);
        assert(s[0].0 != key);
        assert(assoc_lookup(t, key) == assoc_lookup(t.drop_first(), key));
        assert forall|c: u64| c != key implies assoc_lookup(t, c) == assoc_lookup(s, c) by {
            if s[0].0 == c {
                assert(assoc_lookup(t, c) == Some(t[0].1));
            } else {
                assert(assoc_lookup(t, c) == assoc_lookup(t.drop_first(), c));
                assert(assoc_lookup(s, c) == assoc_lookup(s.drop_first(), c));
            }
        }
    }
}

/// Read the value stored for a key, if any.
pub fn assoc_get<V: Copy>(entries: &Vec<(u64, V)>, key: u64) -> (r: Option<V>)
    ensures
        r == assoc_lookup(entries@, key),
{
    let n = entries.len();
    let mut i: usize = 0;
    while i < n
        invariant
            i <= n,
            n == entries@.len(),
            forall|j: int| 0 <= j < i ==> entries@[j].0 != key,
        decreases n - i,
    {
        if entries[i].0 == key {
            proof {
                lemma_assoc_first_match(entries@, key, i as int);
            }
            return Some(entries[i].1);
        }
        i += 1;
    }
    proof {
        lemma_assoc_absent(entries@, key);
    }
    None
}

/// Store a value for a key, replacing any existing entry.
pub fn assoc_put<V: Copy>(entries: &mut Vec<(u64, V)>, key: u64, value: V)
    requires
        distinct_keys(old(entries)@),
    ensures
        distinct_keys(final(entries)@),
        assoc_lookup(final(entries)@, key) == Some(value),
        forall|c: u64| c != key ==> assoc_lookup(final(entries)@, c) == assoc_lookup(
            old(entries)@, c),
    decreases old(entries)@.len(),
{
    let n = entries.len();
    let mut i: usize = 0;
    while i < n
        invariant
            i <= n,
            n == entries@.len(),
            entries@ == old(entries)@,
            distinct_keys(entries@),
            forall|j: int| 0 <= j < i ==> entries@[j].0 != key,
        decreases n - i,
    {
        if entries[i].0 == key {
            proof {
                let s = entries@;
                let updated = s.update(i as int, (key, value));
                assert forall|j: int| 0 <= j < s.len() && j != i implies s[j].0 != key by {
                    if j > i {
                        assert(s[i as int].0 != s[j].0);
                    }
                }
                lemma_assoc_update(s, i as int, (key, value));
                assert(forall|j: int| 0 <= j < s.len() ==> updated[j].0 == s[j].0);
                assert(distinct_keys(updated)) by {
                    assert forall|a: int, b: int|
                        0 <= a < b < updated.len() implies updated[a].0 != updated[b].0 by {
                        assert(updated[a].0 == s[a].0);
                        assert(updated[b].0 == s[b].0);
                    }
                }
            }
            entries.set(i, (key, value));
            return ;
        }
        i += 1;
    }
    proof {
        let s = entries@;
        let pushed = s.push((key, value));
        lemma_assoc_push(s, (key, value));
        assert(!assoc_has(s, key));
        assert(distinct_keys(pushed)) by {
            assert forall|a: int, b: int|
                0 <= a < b < pushed.len() implies pushed[a].0 != pushed[b].0 by {
                if b == s.len() {
                    assert(pushed[a] == s[a]);
                    assert(s[a].0 != key);
                } else {
                    assert(pushed[a] == s[a]);
                    assert(pushed[b] == s[b]);
                }
            }
        }
    }
    entries.push((key, value));
}

} // verus!
