//! The process-wide shared state behind request authorization.

use vstd::prelude::*;

verus! {

use crate::users::provider::UsersProvider;

/// The global server state: the handle to the users provider that the
/// authorization gate consults.
///
/// One value of this type is built at startup and injected wherever the authorization gate
/// runs; it is never replaced afterwards, so every request sees the same
/// token policy.
pub struct GlobalServerState<U: UsersProvider> {
    /// The users provider used solely for token validation.
    pub provider: U,
}

impl<U: UsersProvider> GlobalServerState<U> {
    /// Validity of the held provider.
    pub open spec fn wf(&self) -> bool {
        self.provider.wf()
    }

    /// Wraps the given users provider as the global state.
    pub fn new(provider: U) -> (r: GlobalServerState<U>)
        ensures
            r.provider == provider,
    {
        GlobalServerState { provider }
    }

    /// Asks the users provider whether `token` is accepted.
    pub fn is_token_valid(&self, token: &str) -> (b: bool)
        requires
            self.wf(),
        ensures
            b == self.provider.token_ok(token@),
    {
        self.provider.is_token_valid(token)
    }
}

} // verus!
