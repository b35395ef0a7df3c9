//! The in-memory backing store: a map from entity identifier to entity value.
//!
//! `KvStore` keeps its entries in a vector of `(identifier, value)` pairs with
//! pairwise-distinct identifiers, and is specified through `as_map`, the
//! finite map those pairs denote. `fresh_key` hands out an identifier that is
//! provably absent from the store, which is what lets `create` operations
//! promise that generated identifiers never collide.

use vstd::prelude::*;

verus! {

use vstd::string::StrSliceExecFns;
use vstd::string::StringExecFns;
use crate::strutil::str_eq;

/// The map denoted by an association list; a later entry would shadow an
/// earlier one with the same key, though a well-formed store never holds two
/// entries with one key.
pub open spec fn assoc_map<V>(s: Seq<(String, V)>) -> Map<Seq<char>, V>
    decreases s.len(),
{
    if s.len() == 0 {
        Map::empty()
    } else {
        assoc_map(s.drop_last()).insert(s.last().0@, s.last().1)
    }
}

/// No two entries of the list share a key.
pub open spec fn distinct_keys<V>(s: Seq<(String, V)>) -> bool {
    forall|i: int, j: int| 0 <= i < j < s.len() ==> s[i].0@ != s[j].0@
}

proof fn lemma_assoc_contains<V>(s: Seq<(String, V)>, k: Seq<char>)
    ensures
        assoc_map(s).contains_key(k) <==> exists|i: int| 0 <= i < s.len() && s[i].0@ == k,
    decreases s.len(),
{
    if s.len() > 0 {
        lemma_assoc_contains(s.drop_last(), k);
        if s.last().0@ == k {
            assert(s[s.len() - 1].0@ == k);
        } else if assoc_map(s).contains_key(k) {
            let i = choose|i: int| 0 <= i < s.drop_last().len() && s.drop_last()[i].0@ == k;
            assert(s[i].0@ == k);
        } else if exists|i: int| 0 <= i < s.len() && s[i].0@ == k {
            let i = choose|i: int| 0 <= i < s.len() && s[i].0@ == k;
            assert(s.drop_last()[i].0@ == k);
        }
    }
}

proof fn lemma_assoc_index<V>(s: Seq<(String, V)>, i: int)
    requires
        distinct_keys(s),
        0 <= i < s.len(),
    ensures
        assoc_map(s).contains_key(s[i].0@),
        assoc_map(s)[s[i].0@] == s[i].1,
    decreases s.len(),
{
    if i < s.len() - 1 {
        assert(distinct_keys(s.drop_last())) by {
            assert(forall|a: int, b: int|
                0 <= a < b < s.drop_last().len() ==> s.drop_last()[a].0@ == s[a].0@
                    && s.drop_last()[b].0@ == s[b].0@);
        }
        lemma_assoc_index(s.drop_last(), i);
        assert(s[i].0@ != s.last().0@);
    }
}

proof fn lemma_assoc_finite<V>(s: Seq<(String, V)>)
    ensures
        assoc_map(s).dom().finite(),
    decreases s.len(),
{
    if s.len() > 0 {
        lemma_assoc_finite(s.drop_last());
    }
}

proof fn lemma_assoc_dom_len<V>(s: Seq<(String, V)>)
    requires
        distinct_keys(s),
    ensures
        assoc_map(s).dom().finite(),
        assoc_map(s).dom().len() == s.len(),
    decreases s.len(),
{
    lemma_assoc_finite(s);
    if s.len() > 0 {
        assert(distinct_keys(s.drop_last())) by {
            assert(forall|a: int, b: int|
                0 <= a < b < s.drop_last().len() ==> s.drop_last()[a].0@ == s[a].0@
                    && s.drop_last()[b].0@ == s[b].0@);
        }
        lemma_assoc_dom_len(s.drop_last());
        lemma_assoc_contains(s.drop_last(), s.last().0@);
        assert(forall|i: int| 0 <= i < s.drop_last().len() ==> s.drop_last()[i].0@ == s[i].0@);
        assert(!assoc_map(s.drop_last()).contains_key(s.last().0@));
        assert(assoc_map(s).dom() =~= assoc_map(s.drop_last()).dom().insert(s.last().0@));
    }
}

proof fn lemma_assoc_remove<V>(s: Seq<(String, V)>, i: int)
    requires
        distinct_keys(s),
        0 <= i < s.len(),
    ensures
        assoc_map(s.remove(i)) =~= assoc_map(s).remove(s[i].0@),
        distinct_keys(s.remove(i)),
    decreases s.len(),
{
    assert(distinct_keys(s.remove(i))) by {
        assert(forall|a: int|
            0 <= a < s.remove(i).len() ==> s.remove(i)[a] == (if a < i {
                s[a]
            } else {
                s[a + 1]
            }));
    }
    assert(distinct_keys(s.drop_last())) by {
        assert(forall|a: int, b: int|
            0 <= a < b < s.drop_last().len() ==> s.drop_last()[a].0@ == s[a].0@
                && s.drop_last()[b].0@ == s[b].0@);
    }
    if i == s.len() - 1 {
        assert(s.remove(i) =~= s.drop_last());
        lemma_assoc_contains(s.drop_last(), s.last().0@);
        assert(forall|a: int| 0 <= a < s.drop_last().len() ==> s.drop_last()[a].0@ == s[a].0@);
        assert(!assoc_map(s.drop_last()).contains_key(s.last().0@));
        assert(assoc_map(s.drop_last()) =~= assoc_map(s).remove(s[i].0@));
    } else {
        lemma_assoc_remove(s.drop_last(), i);
        assert(s.remove(i).drop_last() =~= s.drop_last().remove(i));
        assert(s.remove(i).last() == s.last());
        assert(s[i].0@ != s.last().0@);
        assert(assoc_map(s.remove(i)) == assoc_map(s.drop_last().remove(i)).insert(
            s.last().0@,
            s.last().1,
        ));
        assert(assoc_map(s.remove(i)) =~= assoc_map(s).remove(s[i].0@));
    }
}

/// An in-memory store for one entity type, keyed by identifier strings.
pub struct KvStore<V> {
    entries: Vec<(String, V)>,
}

impl<V> KvStore<V> {
    /// The finite map this store denotes.
    pub closed spec fn as_map(&self) -> Map<Seq<char>, V> {
        assoc_map(self.entries@)
    }

    /// Well-formedness: the entry list holds each identifier at most once.
    pub closed spec fn wf(&self) -> bool {
        distinct_keys(self.entries@)
    }

    /// An empty store.
    pub fn new() -> (s: Self)
        ensures
            s.wf(),
            s.as_map() == Map::<Seq<char>, V>::empty(),
    {
        KvStore { entries: Vec::new() }
    }

    fn find_index(&self, id: &str) -> (r: Option<usize>)
        ensures
            match r {
                Some(i) => i < self.entries@.len() && self.entries@[i as int].0@ == id@,
                None => forall|j: int| 0 <= j < self.entries@.len() ==> self.entries@[j].0@ != id@,
            },
    {
        let n = self.entries.len();
        let mut i: usize = 0;
        while i < n
            invariant
                n == self.entries@.len(),
                i <= n,
                forall|j: int| 0 <= j < i ==> self.entries@[j].0@ != id@,
            decreases n - i,
        {
            if str_eq(self.entries[i].0.as_str(), id) {
                return Some(i);
            }
            i += 1;
        }
        None
    }

    /// Whether the store holds an entity under `id`.
    pub fn contains(&self, id: &str) -> (r: bool)
        ensures
            r == self.as_map().contains_key(id@),
    {
        let found = self.find_index(id);
        proof {
            lemma_assoc_contains(self.entries@, id@);
        }
        found.is_some()
    }

    /// Looks the entity stored under `id` up.
    pub fn get(&self, id: &str) -> (r: Option<&V>)
        requires
            self.wf(),
        ensures
            match r {
                Some(v) => self.as_map().contains_key(id@) && *v == self.as_map()[id@],
                None => !self.as_map().contains_key(id@),
            },
    {
        proof {
            lemma_assoc_contains(self.entries@, id@);
        }
        match self.find_index(id) {
            Some(i) => {
                proof {
                    lemma_assoc_index(self.entries@, i as int);
                }
                Some(&self.entries[i].1)
            },
            None => None,
        }
    }

    /// Stores `v` under `id`, replacing any entity the store held there.
    pub fn insert(&mut self, id: String, v: V)
        requires
            old(self).wf(),
        ensures
            final(self).wf(),
            final(self).as_map() == old(self).as_map().insert(id@, v),
    {
        let ghost s0 = self.entries@;
        match self.find_index(id.as_str()) {
            Some(i) => {
                proof {
                    lemma_assoc_remove(s0, i as int);
                }
                self.entries.remove(i);
                self.entries.push((id, v));
                proof {
                    let s1 = s0.remove(i as int);
                    assert(self.entries@ == s1.push((id, v)));
                    assert(self.entries@.drop_last() =~= s1);
                    assert(distinct_keys(self.entries@)) by {
                        lemma_assoc_contains(s1, id@);
                        assert(forall|a: int|
                            0 <= a < s1.len() ==> self.entries@[a].0@ == s1[a].0@);
                    }
                    assert(assoc_map(self.entries@) == assoc_map(s1).insert(id@, v));
                    assert(assoc_map(self.entries@) =~= assoc_map(s0).insert(id@, v));
                }
            },
            None => {
                self.entries.push((id, v));
                proof {
                    assert(self.entries@.drop_last() =~= s0);
                    assert(distinct_keys(self.entries@)) by {
                        assert(forall|a: int| 0 <= a < s0.len() ==> self.entries@[a].0@ == s0[a].0@);
                    }
                    assert(assoc_map(self.entries@) == assoc_map(s0).insert(id@, v));
                }
            },
        }
    }

    /// Removes the entity stored under `id`, if any; reports whether one was
    /// removed.
    pub fn remove(&mut self, id: &str) -> (r: bool)
        requires
            old(self).wf(),
        ensures
            final(self).wf(),
            r == old(self).as_map().contains_key(id@),
            final(self).as_map() == old(self).as_map().remove(id@),
    {
        let ghost s0 = self.entries@;
        proof {
            lemma_assoc_contains(s0, id@);
        }
        match self.find_index(id) {
            Some(i) => {
                proof {
                    lemma_assoc_remove(s0, i as int);
                }
                self.entries.remove(i);
                true
            },
            None => {
                proof {
                    assert(self.as_map() =~= self.as_map().remove(id@));
                }
                false
            },
        }
    }

    /// Borrows every identifier/entity pair the store holds, each exactly
    /// once, in no promised order.
    pub fn items(&self) -> (r: Vec<(&String, &V)>)
        requires
            self.wf(),
        ensures
            r@.len() == self.as_map().dom().len(),
            forall|i: int|
                0 <= i < r@.len() ==> self.as_map().contains_pair(r@[i].0@, *r@[i].1),
            forall|i: int, j: int| 0 <= i < j < r@.len() ==> r@[i].0@ != r@[j].0@,
    {
        let n = self.entries.len();
        let mut r: Vec<(&String, &V)> = Vec::new();
        let mut i: usize = 0;
        while i < n
            invariant
                n == self.entries@.len(),
                i <= n,
                r@.len() == i,
                forall|j: int|
                    0 <= j < i ==> r@[j].0@ == self.entries@[j].0@ && *r@[j].1
                        == self.entries@[j].1,
            decreases n - i,
        {
            let pair = &self.entries[i];
            r.push((&pair.0, &pair.1));
            i += 1;
        }
        proof {
            lemma_assoc_dom_len(self.entries@);
            assert forall|j: int| 0 <= j < r@.len() implies self.as_map().contains_pair(
                r@[j].0@,
                *r@[j].1,
            ) by {
                lemma_assoc_index(self.entries@, j);
            }
        }
        r
    }

    /// How many entities the store holds.
    pub fn len(&self) -> (n: usize)
        requires
            self.wf(),
        ensures
            n == self.as_map().dom().len(),
    {
        proof {
            lemma_assoc_dom_len(self.entries@);
        }
        self.entries.len()
    }

    fn max_key_len(&self) -> (bound: usize)
        ensures
            forall|k: Seq<char>| self.as_map().contains_key(k) ==> k.len() <= bound,
    {
        let n = self.entries.len();
        let mut bound: usize = 0;
        let mut i: usize = 0;
        while i < n
            invariant
                n == self.entries@.len(),
                i <= n,
                forall|j: int| 0 <= j < i ==> self.entries@[j].0@.len() <= bound,
            decreases n - i,
        {
            let l = self.entries[i].0.as_str().unicode_len();
            if l > bound {
                bound = l;
            }
            i += 1;
        }
        proof {
            assert forall|k: Seq<char>| self.as_map().contains_key(k) implies k.len()
                <= bound by {
                lemma_assoc_contains(self.entries@, k);
            }
        }
        bound
    }

    /// Produces an identifier that the store does not hold.
    ///
    /// The identifier is drawn from a 128-bit random space, so the collision
    /// checked for below is all but impossible; the check makes the promise
    /// of freshness unconditional all the same.
    pub fn fresh_key(&self) -> (id: String)
        ensures
            !self.as_map().contains_key(id@),
    {
        let bound = self.max_key_len();
        let mut id = random_id();
        while self.contains(id.as_str())
            invariant
                forall|k: Seq<char>| self.as_map().contains_key(k) ==> k.len() <= bound,
            decreases bound + 1 - id@.len(),
        {
            proof {
                reveal_strlit("0");
            }
            id.append("0");
        }
        id
    }
}

/// Relies on `uuid::Uuid::new_v4` and the hyphenated `Display` of `uuid`: a
/// freshly drawn 128-bit random identifier rendered as 36 ASCII characters.
#[verifier::external_body]
fn random_id() -> (r: String)
    ensures
        r@.len() == 36,
{
    uuid::Uuid::new_v4().to_string()
}

} // verus!
