//! Thread-safe shared handles over the in-memory providers.
//!
//! Each handle owns its provider exclusively behind a reader/writer lock
//! whose invariant is the provider's well-formedness. Concurrent callers
//! hold only shared references to the handle; every operation acquires the
//! lock for the duration of exactly one provider call, so the store is
//! linearizable at the level of individual operations. Reads take the
//! shared lock, writes the exclusive one, and the lock is released before
//! the response is returned.
//!
//! Because callers share the handle, a contract here cannot relate two
//! calls through the store state the way the [`crate::posts::routes`]
//! handlers do; it describes each response relative to the state the lock
//! handed the call, and in particular still ties the response
//! classification of protected operations to the authorization gate alone.

use vstd::prelude::*;

verus! {

use vstd::rwlock::{RwLock, RwLockPredicate};
use crate::auth::{authorized, header_view, AuthToken};
use crate::posts::dummy::DummyProvider as PostsDummyProvider;
use crate::posts::model::PostInput;
use crate::posts::provider::PostsProvider;
use crate::posts::routes::{create_post, delete_post, update_post, PostResponse, PostsState};
use crate::state::GlobalServerState;
use crate::users::dummy::DummyProvider as UsersDummyProvider;
use crate::users::model::UserInput;
use crate::users::provider::UsersProvider;
use crate::users::routes::{create_user, UserResponse, UsersState};

/// The lock invariant of the posts handle: the stored provider is
/// well-formed.
pub struct PostsPred;

impl RwLockPredicate<PostsDummyProvider> for PostsPred {
    open spec fn inv(self, v: PostsDummyProvider) -> bool {
        v.wf()
    }
}

/// The lock invariant of the users handle: the stored provider is
/// well-formed.
pub struct UsersPred;

impl RwLockPredicate<UsersDummyProvider> for UsersPred {
    open spec fn inv(self, v: UsersDummyProvider) -> bool {
        v.wf()
    }
}

/// A thread-safe handle to one posts provider, serving the `/posts` route
/// group.
pub struct SharedPosts {
    lock: RwLock<PostsDummyProvider, PostsPred>,
}

impl SharedPosts {
    /// The lock is configured with the well-formedness invariant.
    pub closed spec fn wf(&self) -> bool {
        self.lock.pred() == PostsPred
    }

    /// Wraps a fresh, empty provider.
    pub fn new() -> (r: Self)
        ensures
            r.wf(),
    {
        SharedPosts { lock: RwLock::new(PostsDummyProvider::new(), Ghost(PostsPred)) }
    }

    /// Serves the list operation: answers 200 with a snapshot of the posts
    /// held at the moment the shared lock was taken; the listed identifiers
    /// are pairwise distinct.
    pub fn handle_list(&self) -> (r: PostResponse)
        requires
            self.wf(),
        ensures
            match r {
                PostResponse::OkList(posts) => forall|i: int, j: int|
                    0 <= i < j < posts@.len() ==> posts@[i].id@ != posts@[j].id@,
                _ => false,
            },
    {
        let read_handle = self.lock.acquire_read();
        let posts = read_handle.borrow().get_all();
        read_handle.release_read();
        PostResponse::OkList(posts)
    }

    /// Serves the create operation under the exclusive lock. The response
    /// classification follows authorization alone: `Created` exactly when the
    /// request is authorized, `Unauthorized` otherwise, and a created post
    /// carries the input's fields and its own location reference.
    pub fn handle_create<U: UsersProvider>(
        &self,
        header: Option<&str>,
        global: &GlobalServerState<U>,
        body: PostInput,
    ) -> (r: PostResponse)
        requires
            self.wf(),
            global.wf(),
        ensures
            match r {
                PostResponse::Created(p, loc) => {
                    &&& authorized(global, header_view(header))
                    &&& p.author == body.author
                    &&& p.content == body.content
                    &&& p.date == body.date
                    &&& loc@ == "/posts/"@ + p.id@
                },
                PostResponse::Unauthorized => !authorized(global, header_view(header)),
                _ => false,
            },
    {
        let (provider, write_handle) = self.lock.acquire_write();
        let mut state = PostsState::new(provider);
        let r = create_post(header, global, &mut state, body);
        write_handle.release_write(state.provider);
        r
    }

    /// Serves the fetch operation: answers 200 with a post carrying the
    /// requested identifier, or 404.
    pub fn handle_get(&self, id: &str) -> (r: PostResponse)
        requires
            self.wf(),
        ensures
            match r {
                PostResponse::OkPost(p) => p.id@ == id@,
                PostResponse::NotFound => true,
                _ => false,
            },
    {
        let read_handle = self.lock.acquire_read();
        let found = read_handle.borrow().get(id);
        read_handle.release_read();
        match found {
            Some(post) => PostResponse::OkPost(post),
            None => PostResponse::NotFound,
        }
    }

    /// Serves the replace operation under the exclusive lock. An authorized
    /// request is answered 200 with the replacement, built wholesale from
    /// the input under the requested identifier, or 404; an unauthorized one
    /// is answered 401 with the store untouched.
    pub fn handle_update<U: UsersProvider>(
        &self,
        header: Option<&str>,
        global: &GlobalServerState<U>,
        id: &str,
        body: PostInput,
    ) -> (r: PostResponse)
        requires
            self.wf(),
            global.wf(),
        ensures
            match r {
                PostResponse::OkPost(p) => {
                    &&& authorized(global, header_view(header))
                    &&& p.id@ == id@
                    &&& p.author == body.author
                    &&& p.content == body.content
                    &&& p.date == body.date
                },
                PostResponse::NotFound => authorized(global, header_view(header)),
                PostResponse::Unauthorized => !authorized(global, header_view(header)),
                _ => false,
            },
    {
        let (provider, write_handle) = self.lock.acquire_write();
        let mut state = PostsState::new(provider);
        let r = update_post(header, global, &mut state, id, body);
        write_handle.release_write(state.provider);
        r
    }

    /// Serves the remove operation under the exclusive lock. An authorized
    /// request is answered 204 or 404; an unauthorized one is answered 401
    /// with the store untouched.
    pub fn handle_delete<U: UsersProvider>(
        &self,
        header: Option<&str>,
        global: &GlobalServerState<U>,
        id: &str,
    ) -> (r: PostResponse)
        requires
            self.wf(),
            global.wf(),
        ensures
            match r {
                PostResponse::NoContent => authorized(global, header_view(header)),
                PostResponse::NotFound => authorized(global, header_view(header)),
                PostResponse::Unauthorized => !authorized(global, header_view(header)),
                _ => false,
            },
    {
        let (provider, write_handle) = self.lock.acquire_write();
        let mut state = PostsState::new(provider);
        let r = delete_post(header, global, &mut state, id);
        write_handle.release_write(state.provider);
        r
    }
}

/// A thread-safe handle to one users provider, serving the `/users` route
/// group.
pub struct SharedUsers {
    lock: RwLock<UsersDummyProvider, UsersPred>,
}

impl SharedUsers {
    /// The lock is configured with the well-formedness invariant.
    pub closed spec fn wf(&self) -> bool {
        self.lock.pred() == UsersPred
    }

    /// Wraps a fresh, empty provider.
    pub fn new() -> (r: Self)
        ensures
            r.wf(),
    {
        SharedUsers { lock: RwLock::new(UsersDummyProvider::new(), Ghost(UsersPred)) }
    }

    /// Serves the list operation: an authorized request is answered 200 with
    /// a snapshot of the users held at the moment the shared lock was taken,
    /// with pairwise-distinct identifiers; an unauthorized one is answered
    /// 401 without the store being read.
    pub fn handle_list<U: UsersProvider>(
        &self,
        header: Option<&str>,
        global: &GlobalServerState<U>,
    ) -> (r: UserResponse)
        requires
            self.wf(),
            global.wf(),
        ensures
            match r {
                UserResponse::OkList(users) => authorized(global, header_view(header))
                    && forall|i: int, j: int|
                    0 <= i < j < users@.len() ==> users@[i].id@ != users@[j].id@,
                UserResponse::Unauthorized => !authorized(global, header_view(header)),
                _ => false,
            },
    {
        match AuthToken::from_request(header, global) {
            None => UserResponse::Unauthorized,
            Some(_auth) => {
                let read_handle = self.lock.acquire_read();
                let users = read_handle.borrow().get_all();
                read_handle.release_read();
                UserResponse::OkList(users)
            },
        }
    }

    /// Serves the create operation under the exclusive lock: answers 201
    /// with the created user, carrying the input's fields and its own
    /// location reference; no authorization is required.
    pub fn handle_create(&self, body: UserInput) -> (r: UserResponse)
        requires
            self.wf(),
        ensures
            match r {
                UserResponse::Created(u, loc) => {
                    &&& u.email == body.email
                    &&& u.nickname == body.nickname
                    &&& loc@ == "/users/"@ + u.id@
                },
                _ => false,
            },
    {
        let (provider, write_handle) = self.lock.acquire_write();
        let mut state = UsersState::new(provider);
        let r = create_user(&mut state, body);
        write_handle.release_write(state.provider);
        r
    }

    /// Serves the fetch operation: an authorized request is answered 200
    /// with a user carrying the requested identifier, or 404; an
    /// unauthorized one is answered 401 without the store being read.
    pub fn handle_get<U: UsersProvider>(
        &self,
        header: Option<&str>,
        global: &GlobalServerState<U>,
        id: &str,
    ) -> (r: UserResponse)
        requires
            self.wf(),
            global.wf(),
        ensures
            match r {
                UserResponse::OkUser(u) => authorized(global, header_view(header)) && u.id@
                    == id@,
                UserResponse::NotFound => authorized(global, header_view(header)),
                UserResponse::Unauthorized => !authorized(global, header_view(header)),
                _ => false,
            },
    {
        match AuthToken::from_request(header, global) {
            None => UserResponse::Unauthorized,
            Some(_auth) => {
                let read_handle = self.lock.acquire_read();
                let found = read_handle.borrow().get(id);
                read_handle.release_read();
                match found {
                    Some(user) => UserResponse::OkUser(user),
                    None => UserResponse::NotFound,
                }
            },
        }
    }
}

} // verus!
