//! The in-memory implementation of [`UsersProvider`].

use vstd::prelude::*;

verus! {

use std::sync::Arc;
use crate::provider::Provider;
use crate::store::KvStore;
use crate::users::model::{User, UserInput};
use crate::users::provider::{lists_users, UsersProvider};

/// In-memory implementation of the [`UsersProvider`] trait.
///
/// User records live in a [`KvStore`] owned by this value; nothing is
/// persisted. Token validation is deliberately a constant predicate that
/// accepts every token: a stand-in policy, not a security mechanism. A real
/// policy belongs to another implementation of the same trait.
pub struct DummyProvider {
    store: KvStore<User>,
}

impl DummyProvider {
    /// Constructs a new, empty `DummyProvider`.
    pub fn new() -> (r: Self)
        ensures
            r.wf(),
            r.users() == Map::<Seq<char>, User>::empty(),
            forall|t: Seq<char>| r.token_ok(t),
    {
        DummyProvider { store: KvStore::new() }
    }

    /// Constructs a new `DummyProvider` and wraps it in an [`Arc`], for
    /// contexts that hand one provider to several owners.
    pub fn wrapped() -> (r: Arc<Self>)
        ensures
            r.wf(),
            r.users() == Map::<Seq<char>, User>::empty(),
            forall|t: Seq<char>| r.token_ok(t),
    {
        Arc::new(DummyProvider { store: KvStore::new() })
    }
}

impl Provider for DummyProvider {

}

impl UsersProvider for DummyProvider {
    closed spec fn users(&self) -> Map<Seq<char>, User> {
        self.store.as_map()
    }

    closed spec fn wf(&self) -> bool {
        &&& self.store.wf()
        &&& forall|k: Seq<char>|
            self.store.as_map().contains_key(k) ==> (#[trigger] self.store.as_map()[k]).id@ == k
    }

    closed spec fn token_ok(&self, token: Seq<char>) -> bool {
        true
    }

    /// Returns all stored users, cloned out of the internal store.
    fn get_all(&self) -> (r: Vec<User>)
        ensures
            lists_users(self.users(), r@),
    {
        let items = self.store.items();
        let n = items.len();
        let mut r: Vec<User> = Vec::new();
        let mut i: usize = 0;
        while i < n
            invariant
                n == items@.len(),
                i <= n,
                r@.len() == i,
                forall|j: int| 0 <= j < i ==> r@[j] == *items@[j].1,
            decreases n - i,
        {
            r.push(items[i].1.clone());
            i += 1;
        }
        proof {
            assert forall|j: int| 0 <= j < r@.len() implies self.users().contains_pair(
                #[trigger] r@[j].id@,
                r@[j],
            ) by {
                assert(self.users().contains_pair(items@[j].0@, *items@[j].1));
            }
            assert forall|a: int, b: int| 0 <= a < b < r@.len() implies r@[a].id@
                != r@[b].id@ by {
                assert(self.users().contains_pair(items@[a].0@, *items@[a].1));
                assert(self.users().contains_pair(items@[b].0@, *items@[b].1));
            }
        }
        r
    }

    /// Returns the user with the given identifier, if it exists.
    fn get(&self, id: &str) -> (r: Option<User>)
        ensures
            match r {
                Some(u) => self.users().contains_key(id@) && u == self.users()[id@] && u.id@
                    == id@,
                None => !self.users().contains_key(id@),
            },
    {
        match self.store.get(id) {
            Some(u) => Some(u.clone()),
            None => None,
        }
    }

    /// Creates a new user under a freshly generated identifier and stores it.
    fn create(&mut self, input: UserInput) -> (r: User)
        ensures
            final(self).wf(),
            !old(self).users().contains_key(r.id@),
            final(self).users() == old(self).users().insert(r.id@, r),
            r.email == input.email,
            r.nickname == input.nickname,
    {
        let id = self.store.fresh_key();
        let user = User::from_input(id.clone(), input);
        self.store.insert(id, user.clone());
        user
    }

    /// Accepts every token: the stand-in validation policy.
    fn is_token_valid(&self, token: &str) -> (b: bool)
        ensures
            b == self.token_ok(token@),
    {
        true
    }
}

} // verus!
