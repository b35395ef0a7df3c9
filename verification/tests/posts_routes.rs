use ex_server::auth::AuthToken;
use ex_server::posts::dummy::DummyProvider;
use ex_server::posts::model::PostInput;
use ex_server::posts::routes::{
    create_post, delete_post, get_post, list_posts, update_post, PostResponse, PostsState,
};
use ex_server::state::GlobalServerState;
use ex_server::users::dummy::DummyProvider as UsersDummyProvider;

fn input(author: &str, content: &str, date: i64) -> PostInput {
    PostInput { author: author.to_string(), content: content.to_string(), date }
}

fn global() -> GlobalServerState<UsersDummyProvider> {
    GlobalServerState::new(UsersDummyProvider::new())
}

#[test]
fn auth_token_accepts_well_formed_header() {
    let global = global();
    assert!(AuthToken::from_request(Some("Bearer some-token"), &global).is_some());
}

#[test]
fn auth_token_rejects_missing_and_malformed_headers() {
    let global = global();
    assert!(AuthToken::from_request(None, &global).is_none());
    assert!(AuthToken::from_request(Some("Token abc"), &global).is_none());
    assert!(AuthToken::from_request(Some("bearer abc"), &global).is_none());
    assert!(AuthToken::from_request(Some("Bearer"), &global).is_none());
    assert!(AuthToken::from_request(Some(""), &global).is_none());
}

#[test]
fn create_post_with_valid_token_returns_201() {
    let global = global();
    let mut state = PostsState::new(DummyProvider::new());
    let response = create_post(Some("Bearer token"), &global, &mut state, input("alice", "hello", 7));
    assert_eq!(response.status_code(), 201);
    match response {
        PostResponse::Created(post, location) => {
            assert_eq!(post.author, "alice");
            assert_eq!(post.content, "hello");
            assert_eq!(post.date, 7);
            assert!(!post.id.is_empty());
            assert!(location.contains(&post.id));
            assert_eq!(location, format!("/posts/{}", post.id));
        }
        _ => panic!("expected a created response"),
    }
}

#[test]
fn create_post_without_header_returns_401_and_leaves_store() {
    let global = global();
    let mut state = PostsState::new(DummyProvider::new());
    let response = create_post(None, &global, &mut state, input("alice", "hello", 7));
    assert_eq!(response.status_code(), 401);
    assert!(matches!(response, PostResponse::Unauthorized));
    match list_posts(&state) {
        PostResponse::OkList(posts) => assert!(posts.is_empty()),
        _ => panic!("expected a list response"),
    }
}

#[test]
fn create_post_with_malformed_header_returns_401_and_leaves_store() {
    let global = global();
    let mut state = PostsState::new(DummyProvider::new());
    let response = create_post(Some("Token abc"), &global, &mut state, input("alice", "hello", 7));
    assert!(matches!(response, PostResponse::Unauthorized));
    let response = create_post(Some("abc"), &global, &mut state, input("alice", "hello", 7));
    assert!(matches!(response, PostResponse::Unauthorized));
    match list_posts(&state) {
        PostResponse::OkList(posts) => assert!(posts.is_empty()),
        _ => panic!("expected a list response"),
    }
}

#[test]
fn update_post_unknown_id_returns_404_and_leaves_store() {
    let global = global();
    let mut state = PostsState::new(DummyProvider::new());
    let response = update_post(
        Some("Bearer token"),
        &global,
        &mut state,
        "no-such-id",
        input("bob", "other", 2),
    );
    assert_eq!(response.status_code(), 404);
    assert!(matches!(response, PostResponse::NotFound));
    match list_posts(&state) {
        PostResponse::OkList(posts) => assert!(posts.is_empty()),
        _ => panic!("expected a list response"),
    }
}

#[test]
fn update_post_existing_id_returns_200_with_replacement() {
    let global = global();
    let mut state = PostsState::new(DummyProvider::new());
    let created = match create_post(Some("Bearer t"), &global, &mut state, input("alice", "first", 1)) {
        PostResponse::Created(post, _) => post,
        _ => panic!("expected a created response"),
    };
    let response = update_post(
        Some("Bearer t"),
        &global,
        &mut state,
        &created.id,
        input("bob", "second", 2),
    );
    assert_eq!(response.status_code(), 200);
    match response {
        PostResponse::OkPost(post) => {
            assert_eq!(post.id, created.id);
            assert_eq!(post.author, "bob");
            assert_eq!(post.content, "second");
            assert_eq!(post.date, 2);
        }
        _ => panic!("expected a single-post response"),
    }
}

#[test]
fn update_post_without_auth_returns_401_and_keeps_record() {
    let global = global();
    let mut state = PostsState::new(DummyProvider::new());
    let created = match create_post(Some("Bearer t"), &global, &mut state, input("alice", "first", 1)) {
        PostResponse::Created(post, _) => post,
        _ => panic!("expected a created response"),
    };
    let response = update_post(None, &global, &mut state, &created.id, input("bob", "second", 2));
    assert!(matches!(response, PostResponse::Unauthorized));
    match get_post(&state, &created.id) {
        PostResponse::OkPost(post) => {
            assert_eq!(post.author, "alice");
            assert_eq!(post.content, "first");
        }
        _ => panic!("expected a single-post response"),
    }
}

#[test]
fn get_post_returns_200_or_404() {
    let global = global();
    let mut state = PostsState::new(DummyProvider::new());
    assert_eq!(get_post(&state, "missing").status_code(), 404);
    let created = match create_post(Some("Bearer t"), &global, &mut state, input("alice", "hello", 1)) {
        PostResponse::Created(post, _) => post,
        _ => panic!("expected a created response"),
    };
    let response = get_post(&state, &created.id);
    assert_eq!(response.status_code(), 200);
    match response {
        PostResponse::OkPost(post) => assert_eq!(post.id, created.id),
        _ => panic!("expected a single-post response"),
    }
}

#[test]
fn delete_post_flow() {
    let global = global();
    let mut state = PostsState::new(DummyProvider::new());
    let created = match create_post(Some("Bearer t"), &global, &mut state, input("alice", "hello", 1)) {
        PostResponse::Created(post, _) => post,
        _ => panic!("expected a created response"),
    };
    let unauthorized = delete_post(None, &global, &mut state, &created.id);
    assert!(matches!(unauthorized, PostResponse::Unauthorized));
    let removed = delete_post(Some("Bearer t"), &global, &mut state, &created.id);
    assert_eq!(removed.status_code(), 204);
    assert!(matches!(removed, PostResponse::NoContent));
    let again = delete_post(Some("Bearer t"), &global, &mut state, &created.id);
    assert_eq!(again.status_code(), 404);
    assert!(matches!(again, PostResponse::NotFound));
}

#[test]
fn list_posts_returns_200_with_all_posts() {
    let global = global();
    let mut state = PostsState::new(DummyProvider::new());
    let first = match create_post(Some("Bearer t"), &global, &mut state, input("alice", "one", 1)) {
        PostResponse::Created(post, _) => post,
        _ => panic!("expected a created response"),
    };
    let second = match create_post(Some("Bearer t"), &global, &mut state, input("bob", "two", 2)) {
        PostResponse::Created(post, _) => post,
        _ => panic!("expected a created response"),
    };
    let response = list_posts(&state);
    assert_eq!(response.status_code(), 200);
    match response {
        PostResponse::OkList(posts) => {
            assert_eq!(posts.len(), 2);
            assert!(posts.iter().any(|p| p.id == first.id));
            assert!(posts.iter().any(|p| p.id == second.id));
        }
        _ => panic!("expected a list response"),
    }
}
