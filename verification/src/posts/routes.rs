//! The routing decisions behind the `/posts` endpoints.
//!
//! Each handler translates one verb-and-path shape into exactly one provider
//! call and a status-coded response. The handlers take the raw authorization
//! header where the endpoint is protected; an unauthorized request is
//! answered `Unauthorized` and the provider is never touched.

use vstd::prelude::*;

verus! {

use vstd::string::StringExecFns;
use crate::auth::{authorized, header_view, AuthToken};
use crate::posts::model::{Post, PostInput};
use crate::posts::provider::{lists_posts, PostsProvider};
use crate::state::GlobalServerState;
use crate::users::provider::UsersProvider;

/// Shared application state for the posts route group: the backend provider
/// all posts handlers call.
pub struct PostsState<P: PostsProvider> {
    /// The backend provider implementing all operations on posts.
    pub provider: P,
}

impl<P: PostsProvider> PostsState<P> {
    /// Validity of the held provider.
    pub open spec fn wf(&self) -> bool {
        self.provider.wf()
    }

    /// Constructs a new `PostsState` over the given provider.
    pub fn new(provider: P) -> (r: PostsState<P>)
        ensures
            r.provider == provider,
    {
        PostsState { provider }
    }
}

/// What a posts endpoint answers.
pub enum PostResponse {
    /// 200, with a snapshot of all posts.
    OkList(Vec<Post>),
    /// 200, with one post.
    OkPost(Post),
    /// 201, with the created post and the location reference of the new
    /// resource.
    Created(Post, String),
    /// 204, after a successful removal.
    NoContent,
    /// 404: no post has the requested identifier.
    NotFound,
    /// 401: the request did not pass the authorization gate.
    Unauthorized,
}

impl PostResponse {
    /// The HTTP status code this response is served with.
    pub open spec fn spec_status_code(&self) -> u16 {
        match self {
            PostResponse::OkList(_) => 200,
            PostResponse::OkPost(_) => 200,
            PostResponse::Created(_, _) => 201,
            PostResponse::NoContent => 204,
            PostResponse::NotFound => 404,
            PostResponse::Unauthorized => 401,
        }
    }

    /// The HTTP status code this response is served with.
    pub fn status_code(&self) -> (c: u16)
        ensures
            c == self.spec_status_code(),
    {
        match self {
            PostResponse::OkList(_) => 200,
            PostResponse::OkPost(_) => 200,
            PostResponse::Created(_, _) => 201,
            PostResponse::NoContent => 204,
            PostResponse::NotFound => 404,
            PostResponse::Unauthorized => 401,
        }
    }
}

/// Handles the list operation: unprotected; answers 200 with a snapshot of
/// all posts.
pub fn list_posts<P: PostsProvider>(state: &PostsState<P>) -> (r: PostResponse)
    requires
        state.wf(),
    ensures
        match r {
            PostResponse::OkList(posts) => lists_posts(state.provider.posts(), posts@),
            _ => false,
        },
{
    PostResponse::OkList(state.provider.get_all())
}

/// Handles the create operation: protected. An authorized request is
/// answered 201 with the created post and its location reference
/// `/posts/{id}`; an unauthorized one is answered 401 with the store
/// untouched.
pub fn create_post<U: UsersProvider, P: PostsProvider>(
    header: Option<&str>,
    global: &GlobalServerState<U>,
    state: &mut PostsState<P>,
    body: PostInput,
) -> (r: PostResponse)
    requires
        global.wf(),
        old(state).wf(),
    ensures
        final(state).wf(),
        if authorized(global, header_view(header)) {
            match r {
                PostResponse::Created(p, loc) => {
                    &&& !old(state).provider.posts().contains_key(p.id@)
                    &&& final(state).provider.posts() == old(state).provider.posts().insert(
                        p.id@,
                        p,
                    )
                    &&& p.author == body.author
                    &&& p.content == body.content
                    &&& p.date == body.date
                    &&& loc@ == "/posts/"@ + p.id@
                },
                _ => false,
            }
        } else {
            r is Unauthorized && final(state).provider.posts() == old(state).provider.posts()
        },
{
    match AuthToken::from_request(header, global) {
        None => PostResponse::Unauthorized,
        Some(_auth) => {
            let post = state.provider.create(body);
            let location = String::from_str("/posts/").concat(post.id.as_str());
            PostResponse::Created(post, location)
        },
    }
}

/// Handles the fetch operation: unprotected; answers 200 with the requested
/// post, or 404 if no post has the identifier.
pub fn get_post<P: PostsProvider>(state: &PostsState<P>, id: &str) -> (r: PostResponse)
    requires
        state.wf(),
    ensures
        if state.provider.posts().contains_key(id@) {
            match r {
                PostResponse::OkPost(p) => p == state.provider.posts()[id@] && p.id@ == id@,
                _ => false,
            }
        } else {
            r is NotFound
        },
{
    match state.provider.get(id) {
        Some(post) => PostResponse::OkPost(post),
        None => PostResponse::NotFound,
    }
}

/// Handles the replace operation: protected. An authorized request is
/// answered 200 with the replacement post, or 404, leaving the store
/// untouched, if no post has the identifier; an unauthorized one is answered
/// 401 with the store untouched.
pub fn update_post<U: UsersProvider, P: PostsProvider>(
    header: Option<&str>,
    global: &GlobalServerState<U>,
    state: &mut PostsState<P>,
    id: &str,
    body: PostInput,
) -> (r: PostResponse)
    requires
        global.wf(),
        old(state).wf(),
    ensures
        final(state).wf(),
        if authorized(global, header_view(header)) {
            if old(state).provider.posts().contains_key(id@) {
                match r {
                    PostResponse::OkPost(p) => {
                        &&& p.id@ == id@
                        &&& p.author == body.author
                        &&& p.content == body.content
                        &&& p.date == body.date
                        &&& final(state).provider.posts() == old(state).provider.posts().insert(
                            id@,
                            p,
                        )
                    },
                    _ => false,
                }
            } else {
                r is NotFound && final(state).provider.posts() == old(state).provider.posts()
            }
        } else {
            r is Unauthorized && final(state).provider.posts() == old(state).provider.posts()
        },
{
    match AuthToken::from_request(header, global) {
        None => PostResponse::Unauthorized,
        Some(_auth) => match state.provider.update(id, body) {
            Some(post) => PostResponse::OkPost(post),
            None => PostResponse::NotFound,
        },
    }
}

/// Handles the remove operation: protected. An authorized request is
/// answered 204 after the removal, or 404 if no post has the identifier; an
/// unauthorized one is answered 401 with the store untouched.
pub fn delete_post<U: UsersProvider, P: PostsProvider>(
    header: Option<&str>,
    global: &GlobalServerState<U>,
    state: &mut PostsState<P>,
    id: &str,
) -> (r: PostResponse)
    requires
        global.wf(),
        old(state).wf(),
    ensures
        final(state).wf(),
        if authorized(global, header_view(header)) {
            &&& final(state).provider.posts() == old(state).provider.posts().remove(id@)
            &&& if old(state).provider.posts().contains_key(id@) {
                r is NoContent
            } else {
                r is NotFound
            }
        } else {
            r is Unauthorized && final(state).provider.posts() == old(state).provider.posts()
        },
{
    match AuthToken::from_request(header, global) {
        None => PostResponse::Unauthorized,
        Some(_auth) => {
            if state.provider.delete(id) {
                PostResponse::NoContent
            } else {
                PostResponse::NotFound
            }
        },
    }
}

} // verus!
