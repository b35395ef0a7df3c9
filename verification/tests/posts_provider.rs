use ex_server::posts::dummy::DummyProvider;
use ex_server::posts::model::PostInput;
use ex_server::posts::provider::PostsProvider;

fn input(author: &str, content: &str, date: i64) -> PostInput {
    PostInput { author: author.to_string(), content: content.to_string(), date }
}

#[test]
fn create_then_get_round_trip() {
    let mut provider = DummyProvider::new();
    let created = provider.create(input("alice", "hello", 42));
    let got = provider.get(&created.id).expect("created post must be found");
    assert_eq!(got.id, created.id);
    assert_eq!(got.author, created.author);
    assert_eq!(got.content, created.content);
    assert_eq!(got.date, created.date);
}

#[test]
fn created_ids_pairwise_distinct() {
    let mut provider = DummyProvider::new();
    let mut ids: Vec<String> = Vec::new();
    for k in 0..10 {
        let post = provider.create(input("author", "content", k));
        ids.push(post.id);
    }
    for i in 0..ids.len() {
        for j in (i + 1)..ids.len() {
            assert_ne!(ids[i], ids[j]);
        }
    }
}

#[test]
fn created_id_has_uuid_length() {
    let mut provider = DummyProvider::new();
    let post = provider.create(input("alice", "hello", 1));
    assert_eq!(post.id.chars().count(), 36);
}

#[test]
fn update_replaces_wholesale() {
    let mut provider = DummyProvider::new();
    let created = provider.create(input("alice", "first", 1));
    let updated = provider
        .update(&created.id, input("bob", "second", 2))
        .expect("existing id must be updatable");
    assert_eq!(updated.id, created.id);
    assert_eq!(updated.author, "bob");
    assert_eq!(updated.content, "second");
    assert_eq!(updated.date, 2);
    let got = provider.get(&created.id).expect("updated post must be found");
    assert_eq!(got.author, "bob");
    assert_eq!(got.content, "second");
    assert_eq!(got.date, 2);
    assert_eq!(got.id, created.id);
}

#[test]
fn update_unknown_id_returns_none_and_mutates_nothing() {
    let mut provider = DummyProvider::new();
    let kept = provider.create(input("alice", "hello", 1));
    assert!(provider.update("no-such-id", input("bob", "other", 2)).is_none());
    let all = provider.get_all();
    assert_eq!(all.len(), 1);
    assert_eq!(all[0].id, kept.id);
    assert_eq!(all[0].author, "alice");
}

#[test]
fn delete_absent_returns_false_and_leaves_store() {
    let mut provider = DummyProvider::new();
    let kept = provider.create(input("alice", "hello", 1));
    assert!(!provider.delete("no-such-id"));
    let all = provider.get_all();
    assert_eq!(all.len(), 1);
    assert_eq!(all[0].id, kept.id);
}

#[test]
fn delete_twice_returns_true_then_false() {
    let mut provider = DummyProvider::new();
    let created = provider.create(input("alice", "hello", 1));
    assert!(provider.delete(&created.id));
    assert!(!provider.delete(&created.id));
    assert!(provider.get(&created.id).is_none());
}

#[test]
fn not_found_symmetry_on_unknown_id() {
    let mut provider = DummyProvider::new();
    assert!(provider.get("missing").is_none());
    assert!(provider.update("missing", input("a", "b", 0)).is_none());
    assert!(!provider.delete("missing"));
    assert!(provider.get_all().is_empty());
}

#[test]
fn wrapped_provider_serves_shared_reads() {
    let provider = DummyProvider::wrapped();
    let other = provider.clone();
    assert!(provider.get_all().is_empty());
    assert!(other.get("missing").is_none());
}

#[test]
fn two_creates_both_listed() {
    let mut provider = DummyProvider::new();
    let first = provider.create(input("alice", "one", 1));
    let second = provider.create(input("bob", "two", 2));
    assert_ne!(first.id, second.id);
    let all = provider.get_all();
    assert_eq!(all.len(), 2);
    assert!(all.iter().any(|p| p.id == first.id && p.author == "alice"));
    assert!(all.iter().any(|p| p.id == second.id && p.author == "bob"));
}
