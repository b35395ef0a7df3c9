//! The routing decisions behind the `/users` endpoints.
//!
//! The users group exposes list, create and fetch only; list and fetch are
//! protected, create is not. As everywhere, an unauthorized request is
//! answered `Unauthorized` and the provider is never touched.

use vstd::prelude::*;

verus! {

use vstd::string::StringExecFns;
use crate::auth::{authorized, header_view, AuthToken};
use crate::state::GlobalServerState;
use crate::users::model::{User, UserInput};
use crate::users::provider::{lists_users, UsersProvider};

/// Shared application state for the users route group: the backend provider
/// all users handlers call.
///
/// The server builds this state and the global one over the same provider
/// policy, so the authorization answer here is the answer of the users provider.
pub struct UsersState<U: UsersProvider> {
    /// The backend provider implementing all operations on users.
    pub provider: U,
}

impl<U: UsersProvider> UsersState<U> {
    /// Validity of the held provider.
    pub open spec fn wf(&self) -> bool {
        self.provider.wf()
    }

    /// Constructs a new `UsersState` over the given provider.
    pub fn new(provider: U) -> (r: UsersState<U>)
        ensures
            r.provider == provider,
    {
        UsersState { provider }
    }
}

/// What a users endpoint answers.
pub enum UserResponse {
    /// 200, with a snapshot of all users.
    OkList(Vec<User>),
    /// 200, with one user.
    OkUser(User),
    /// 201, with the created user and the location reference of the new
    /// resource.
    Created(User, String),
    /// 404: no user has the requested identifier.
    NotFound,
    /// 401: the request did not pass the authorization gate.
    Unauthorized,
}

impl UserResponse {
    /// The HTTP status code this response is served with.
    pub open spec fn spec_status_code(&self) -> u16 {
        match self {
            UserResponse::OkList(_) => 200,
            UserResponse::OkUser(_) => 200,
            UserResponse::Created(_, _) => 201,
            UserResponse::NotFound => 404,
            UserResponse::Unauthorized => 401,
        }
    }

    /// The HTTP status code this response is served with.
    pub fn status_code(&self) -> (c: u16)
        ensures
            c == self.spec_status_code(),
    {
        match self {
            UserResponse::OkList(_) => 200,
            UserResponse::OkUser(_) => 200,
            UserResponse::Created(_, _) => 201,
            UserResponse::NotFound => 404,
            UserResponse::Unauthorized => 401,
        }
    }
}

/// Handles the list operation: protected. An authorized request is answered
/// 200 with a snapshot of all users; an unauthorized one is answered 401.
pub fn list_users<U: UsersProvider, W: UsersProvider>(
    header: Option<&str>,
    global: &GlobalServerState<U>,
    state: &UsersState<W>,
) -> (r: UserResponse)
    requires
        global.wf(),
        state.wf(),
    ensures
        if authorized(global, header_view(header)) {
            match r {
                UserResponse::OkList(users) => lists_users(state.provider.users(), users@),
                _ => false,
            }
        } else {
            r is Unauthorized
        },
{
    match AuthToken::from_request(header, global) {
        None => UserResponse::Unauthorized,
        Some(_auth) => UserResponse::OkList(state.provider.get_all()),
    }
}

/// Handles the create operation: unprotected; answers 201 with the created
/// user and its location reference `/users/{id}`.
pub fn create_user<W: UsersProvider>(state: &mut UsersState<W>, body: UserInput) -> (r:
    UserResponse)
    requires
        old(state).wf(),
    ensures
        final(state).wf(),
        match r {
            UserResponse::Created(u, loc) => {
                &&& !old(state).provider.users().contains_key(u.id@)
                &&& final(state).provider.users() == old(state).provider.users().insert(u.id@, u)
                &&& u.email == body.email
                &&& u.nickname == body.nickname
                &&& loc@ == "/users/"@ + u.id@
            },
            _ => false,
        },
{
    let user = state.provider.create(body);
    let location = String::from_str("/users/").concat(user.id.as_str());
    UserResponse::Created(user, location)
}

/// Handles the fetch operation: protected. An authorized request is answered
/// 200 with the requested user, or 404 if no user has the identifier; an
/// unauthorized one is answered 401.
pub fn get_user<U: UsersProvider, W: UsersProvider>(
    header: Option<&str>,
    global: &GlobalServerState<U>,
    state: &UsersState<W>,
    id: &str,
) -> (r: UserResponse)
    requires
        global.wf(),
        state.wf(),
    ensures
        if authorized(global, header_view(header)) {
            if state.provider.users().contains_key(id@) {
                match r {
                    UserResponse::OkUser(u) => u == state.provider.users()[id@] && u.id@ == id@,
                    _ => false,
                }
            } else {
                r is NotFound
            }
        } else {
            r is Unauthorized
        },
{
    match AuthToken::from_request(header, global) {
        None => UserResponse::Unauthorized,
        Some(_auth) => match state.provider.get(id) {
            Some(user) => UserResponse::OkUser(user),
            None => UserResponse::NotFound,
        },
    }
}

} // verus!
