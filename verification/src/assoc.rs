use vstd::prelude::*;

verus! {

/// First-match lookup in a string-keyed association sequence.
pub open spec fn assoc_lookup<T>(s: Seq<(String, T)>, k: Seq<char>) -> Option<T>
    decreases s.len(),
{
    if s.len() == 0 {
        None
    } else if s[0].0@ == k {
        Some(s[0].1)
    } else {
        assoc_lookup(s.drop_first(), k)
    }
}

/// Lookup with a default for an absent key.
pub open spec fn assoc_lookup_or<T>(s: Seq<(String, T)>, k: Seq<char>, default: T) -> T {
    match assoc_lookup(s, k) {
        Some(v) => v,
        None => default,
    }
}

/// Entries whose key misses can be skipped without changing the lookup.
pub proof fn lemma_assoc_lookup_skip<T>(s: Seq<(String, T)>, k: Seq<char>, i: int)
    requires
        0 <= i <= s.len(),
        forall|j: int| 0 <= j < i ==> s[j].0@ != k,
    ensures
        assoc_lookup(s.skip(i), k) == assoc_lookup(s, k),
    decreases i,
{
    if i == 0 {
        assert(s.skip(0) =~= s);
    } else {
        assert(s[0].0@ != k);
        assert forall|j: int| 0 <= j < i - 1 implies s.drop_first()[j].0@ != k by {
            assert(s.drop_first()[j] == s[j + 1]);
        }
        lemma_assoc_lookup_skip(s.drop_first(), k, i - 1);
        assert(s.drop_first().skip(i - 1) =~= s.skip(i));
    }
}

/// The first entry with the key, all earlier keys missing, decides the lookup.
pub proof fn lemma_assoc_lookup_found<T>(s: Seq<(String, T)>, k: Seq<char>, i: int)
    requires
        0 <= i < s.len(),
        forall|j: int| 0 <= j < i ==> s[j].0@ != k,
        s[i].0@ == k,
    ensures
        assoc_lookup(s, k) == Some(s[i].1),
{
    lemma_assoc_lookup_skip(s, k, i);
    assert(s.skip(i).len() > 0);
    assert(s.skip(i)[0] == s[i]);
}

/// A key that no entry holds is not found.
pub proof fn lemma_assoc_lookup_none<T>(s: Seq<(String, T)>, k: Seq<char>)
    requires
        forall|j: int| 0 <= j < s.len() ==> s[j].0@ != k,
    ensures
        assoc_lookup(s, k) == None::<T>,
{
    lemma_assoc_lookup_skip(s, k, s.len() as int);
    assert(s.skip(s.len() as int).len() == 0);
}

/// Overwriting an entry in place, key kept, leaves every other key's lookup
/// as it was.
pub proof fn lemma_assoc_lookup_update_same_key<T>(
    s: Seq<(String, T)>,
    i: int,
    e: (String, T),
    k: Seq<char>,
)
    requires
        0 <= i < s.len(),
        e.0@ == s[i].0@,
        k != e.0@,
    ensures
        assoc_lookup(s.update(i, e), k) == assoc_lookup(s, k),
    decreases s.len(),
{
    let s2 = s.update(i, e);
    if i == 0 {
        assert(s2[0] == e);
        assert(s2.drop_first() =~= s.drop_first());
    } else {
        assert(s2[0] == s[0]);
        if s[0].0@ == k {
        } else {
            assert(s2.drop_first() =~= s.drop_first().update(i - 1, e));
            lemma_assoc_lookup_update_same_key(s.drop_first(), i - 1, e, k);
        }
    }
}

/// Appending an entry with a different key leaves a key's lookup as it was.
pub proof fn lemma_assoc_lookup_push_other<T>(s: Seq<(String, T)>, e: (String, T), k: Seq<char>)
    requires
        e.0@ != k,
    ensures
        assoc_lookup(s.push(e), k) == assoc_lookup(s, k),
    decreases s.len(),
{
    if s.len() == 0 {
        assert(s.push(e)[0] == e);
        assert(s.push(e).drop_first() =~= Seq::<(String, T)>::empty());
    } else {
        assert(s.push(e)[0] == s[0]);
        if s[0].0@ == k {
        } else {
            assert(s.push(e).drop_first() =~= s.drop_first().push(e));
            lemma_assoc_lookup_push_other(s.drop_first(), e, k);
        }
    }
}

} // verus!
