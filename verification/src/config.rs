use vstd::prelude::*;

use crate::assoc::{
    assoc_lookup, assoc_lookup_or, lemma_assoc_lookup_found, lemma_assoc_lookup_none,
    lemma_assoc_lookup_push_other, lemma_assoc_lookup_update_same_key,
};
use crate::text::str_eq;

verus! {

/// The persisted per-tool enablement flags: a mapping from tool id to a
/// boolean, kept as an association list with unique keys. The list may hold
/// stale keys from an earlier theme; readers only ever ask for the ids of
/// the currently active theme.
pub struct ToolsConfig {
    entries: Vec<(String, bool)>,
}

impl View for ToolsConfig {
    type V = Seq<(String, bool)>;

    closed spec fn view(&self) -> Seq<(String, bool)> {
        self.entries@
    }
}

impl ToolsConfig {
    /// Keys are unique, so the list denotes a map.
    pub open spec fn wf(self) -> bool {
        forall|i: int, j: int|
            0 <= i < j < self@.len() ==> (#[trigger] self@[i]).0@ != (#[trigger] self@[j]).0@
    }

    pub fn new() -> (r: Self)
        ensures
            r.wf(),
            r@.len() == 0,
            forall|k: Seq<char>| assoc_lookup(#[trigger] r@, k) == None::<bool>,
    {
        let r = ToolsConfig { entries: Vec::new() };
        proof {
            assert forall|k: Seq<char>| assoc_lookup(#[trigger] r@, k) == None::<bool> by {
                lemma_assoc_lookup_none(r@, k);
            }
        }
        r
    }

    /// The stored flag for a tool id, if the id is present.
    pub fn get(&self, id: &str) -> (r: Option<bool>)
        ensures
            r == assoc_lookup(self@, id@),
    {
        let n = self.entries.len();
        let mut i: usize = 0;
        while i < n
            invariant
                i <= n,
                n == self@.len(),
                forall|j: int| 0 <= j < i ==> (#[trigger] self@[j]).0@ != id@,
            decreases n - i,
        {
            if str_eq(self.entries[i].0.as_str(), id) {
                proof {
                    lemma_assoc_lookup_found(self@, id@, i as int);
                }
                return Some(self.entries[i].1);
            }
            i += 1;
        }
        proof {
            lemma_assoc_lookup_none(self@, id@);
        }
        None
    }

    /// The stored flag for a tool id, or `default` when the id is absent.
    pub fn get_or(&self, id: &str, default: bool) -> (r: bool)
        ensures
            r == assoc_lookup_or(self@, id@, default),
    {
        match self.get(id) {
            Some(b) => b,
            None => default,
        }
    }

    /// Stores a flag for a tool id, overwriting an entry that holds the id
    /// already; every other id keeps its flag.
    pub fn set(&mut self, id: &str, value: bool)
        requires
            old(self).wf(),
        ensures
            final(self).wf(),
            assoc_lookup(final(self)@, id@) == Some(value),
            forall|k: Seq<char>|
                k != id@ ==> assoc_lookup(#[trigger] final(self)@, k) == assoc_lookup(
                    old(self)@,
                    k,
                ),
            assoc_lookup(old(self)@, id@) is Some ==> final(self)@.len() == old(self)@.len(),
            assoc_lookup(old(self)@, id@) is None ==> final(self)@.len() == old(self)@.len() + 1,
    {
        let ghost s0 = self@;
        let n = self.entries.len();
        let mut i: usize = 0;
        while i < n
            invariant
                i <= n,
                n == self@.len(),
                self@ == s0,
                old(self).wf(),
                self@ == old(self)@,
                forall|j: int| 0 <= j < i ==> (#[trigger] self@[j]).0@ != id@,
            decreases n - i,
        {
            if str_eq(self.entries[i].0.as_str(), id) {
                proof {
                    lemma_assoc_lookup_found(s0, id@, i as int);
                }
                self.entries[i] = (String::from_str(id), value);
                proof {
                    assert(self@ == s0.update(i as int, (self@[i as int].0, value)));
                    assert(self@[i as int].0@ == id@);
                    assert forall|j: int| 0 <= j < self@.len() implies (#[trigger] self@[j]).0@
                        == s0[j].0@ by {}
                    assert(final(self).wf());
                    lemma_assoc_lookup_found(self@, id@, i as int);
                    assert forall|k: Seq<char>| k != id@ implies assoc_lookup(
                        #[trigger] self@,
                        k,
                    ) == assoc_lookup(s0, k) by {
                        lemma_assoc_lookup_update_same_key(
                            s0,
                            i as int,
                            self@[i as int],
                            k,
                        );
                    }
                }
                return ;
            }
            i += 1;
        }
        self.entries.push((String::from_str(id), value));
        proof {
            lemma_assoc_lookup_none(s0, id@);
            assert(self@ == s0.push(self@[s0.len() as int]));
            assert(self@[s0.len() as int].0@ == id@);
            lemma_assoc_lookup_found(self@, id@, s0.len() as int);
            assert forall|k: Seq<char>| k != id@ implies assoc_lookup(#[trigger] self@, k)
                == assoc_lookup(s0, k) by {
                lemma_assoc_lookup_push_other(s0, self@[s0.len() as int], k);
            }
        }
    }

    /// Drops every stored flag.
    pub fn clear(&mut self)
        ensures
            final(self).wf(),
            final(self)@.len() == 0,
            forall|k: Seq<char>| assoc_lookup(#[trigger] final(self)@, k) == None::<bool>,
    {
        self.entries = Vec::new();
        proof {
            assert forall|k: Seq<char>| assoc_lookup(#[trigger] self@, k) == None::<bool> by {
                lemma_assoc_lookup_none(self@, k);
            }
        }
    }

    pub fn len(&self) -> (n: usize)
        ensures
            n == self@.len(),
    {
        self.entries.len()
    }

    /// The stored entries, for a caller that persists them.
    pub fn entries(&self) -> (r: &Vec<(String, bool)>)
        ensures
            r@ == self@,
    {
        &self.entries
    }

    /// An equal copy.
    pub fn clone_config(&self) -> (r: Self)
        ensures
            r@ == self@,
    {
        let mut entries: Vec<(String, bool)> = Vec::new();
        let n = self.entries.len();
        let mut i: usize = 0;
        while i < n
            invariant
                i <= n,
                n == self@.len(),
                entries@ =~= self@.subrange(0, i as int),
            decreases n - i,
        {
            let e = (self.entries[i].0.clone(), self.entries[i].1);
            entries.push(e);
            proof {
                assert(entries@ =~= self@.subrange(0, i + 1));
            }
            i += 1;
        }
        let r = ToolsConfig { entries };
        proof {
            assert(r@ =~= self@);
        }
        r
    }
}

} // verus!
