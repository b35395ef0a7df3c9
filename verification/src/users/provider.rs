//! The provider contract for the users resource group.

use vstd::prelude::*;

verus! {

use crate::provider::Provider;
use crate::users::model::{User, UserInput};

/// `s` enumerates the users of `m` exactly once each, in no promised order.
pub open spec fn lists_users(m: Map<Seq<char>, User>, s: Seq<User>) -> bool {
    &&& s.len() == m.dom().len()
    &&& forall|i: int| 0 <= i < s.len() ==> m.contains_pair(#[trigger] s[i].id@, s[i])
    &&& forall|i: int, j: int| 0 <= i < j < s.len() ==> s[i].id@ != s[j].id@
}

/// Trait for managing user resources and the token check behind request
/// authorization.
///
/// It extends the [`Provider`] base trait. Besides CRUD over user records it
/// carries `is_token_valid`, the predicate the authorization gate consults;
/// which tokens an implementation accepts is its own policy, reflected by
/// the `token_ok` specification.
pub trait UsersProvider: Provider {
    /// The users the provider currently holds, keyed by identifier.
    spec fn users(&self) -> Map<Seq<char>, User>;

    /// Internal well-formedness; constructors establish it and every
    /// operation preserves it.
    spec fn wf(&self) -> bool;

    /// The implementation's token-acceptance policy.
    spec fn token_ok(&self, token: Seq<char>) -> bool;

    /// Returns a snapshot of all users; the order is not part of the
    /// contract.
    fn get_all(&self) -> (r: Vec<User>)
        requires
            self.wf(),
        ensures
            lists_users(self.users(), r@),
    ;

    /// Returns the user stored under `id`, or `None` if there is none.
    fn get(&self, id: &str) -> (r: Option<User>)
        requires
            self.wf(),
        ensures
            match r {
                Some(u) => self.users().contains_key(id@) && u == self.users()[id@] && u.id@
                    == id@,
                None => !self.users().contains_key(id@),
            },
    ;

    /// Creates a new user from `input` under a freshly generated identifier
    /// and returns it.
    fn create(&mut self, input: UserInput) -> (r: User)
        requires
            old(self).wf(),
        ensures
            final(self).wf(),
            !old(self).users().contains_key(r.id@),
            final(self).users() == old(self).users().insert(r.id@, r),
            r.email == input.email,
            r.nickname == input.nickname,
    ;

    /// Decides whether `token` is accepted; `true` exactly on the tokens
    /// that `token_ok` admits.
    fn is_token_valid(&self, token: &str) -> (b: bool)
        requires
            self.wf(),
        ensures
            b == self.token_ok(token@),
    ;
}

} // verus!
