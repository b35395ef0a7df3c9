//! The user entity and its input counterpart.

use vstd::prelude::*;

verus! {

/// A stored user record.
///
/// `id` is assigned by the store on creation and never changes afterwards.
pub struct User {
    pub id: String,
    pub email: String,
    pub nickname: String,
}

/// A user as callers supply it: a [`User`] without its identifier.
pub struct UserInput {
    pub email: String,
    pub nickname: String,
}

impl User {
    /// Builds the user that the store keeps under `id` for the given input.
    pub fn from_input(id: String, input: UserInput) -> (r: User)
        ensures
            r.id == id,
            r.email == input.email,
            r.nickname == input.nickname,
    {
        User { id, email: input.email, nickname: input.nickname }
    }
}

impl Clone for User {
    fn clone(&self) -> (r: Self)
        ensures
            r == *self,
    {
        User {
            id: self.id.clone(),
            email: self.email.clone(),
            nickname: self.nickname.clone(),
        }
    }
}

impl Clone for UserInput {
    fn clone(&self) -> (r: Self)
        ensures
            r == *self,
    {
        UserInput { email: self.email.clone(), nickname: self.nickname.clone() }
    }
}

} // verus!
