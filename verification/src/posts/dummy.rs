//! The in-memory implementation of [`PostsProvider`].

use vstd::prelude::*;

verus! {

use std::sync::Arc;
use crate::provider::Provider;
use crate::posts::model::{Post, PostInput};
use crate::posts::provider::{lists_posts, PostsProvider};
use crate::store::KvStore;

/// In-memory implementation of the [`PostsProvider`] trait.
///
/// Posts live in a [`KvStore`] owned by this value; nothing is persisted.
/// Concurrent callers share one instance through a lock-holding handle (see
/// [`crate::shared`]) rather than through direct access to the store.
pub struct DummyProvider {
    store: KvStore<Post>,
}

impl DummyProvider {
    /// Constructs a new, empty `DummyProvider`.
    pub fn new() -> (r: Self)
        ensures
            r.wf(),
            r.posts() == Map::<Seq<char>, Post>::empty(),
    {
        DummyProvider { store: KvStore::new() }
    }

    /// Constructs a new `DummyProvider` and wraps it in an [`Arc`], for
    /// contexts that hand one provider to several owners.
    pub fn wrapped() -> (r: Arc<Self>)
        ensures
            r.wf(),
            r.posts() == Map::<Seq<char>, Post>::empty(),
    {
        Arc::new(DummyProvider { store: KvStore::new() })
    }
}

impl Provider for DummyProvider {

}

impl PostsProvider for DummyProvider {
    closed spec fn posts(&self) -> Map<Seq<char>, Post> {
        self.store.as_map()
    }

    closed spec fn wf(&self) -> bool {
        &&& self.store.wf()
        &&& forall|k: Seq<char>|
            self.store.as_map().contains_key(k) ==> (#[trigger] self.store.as_map()[k]).id@ == k
    }

    /// Returns all stored posts, cloned out of the internal store.
    fn get_all(&self) -> (r: Vec<Post>)
        ensures
            lists_posts(self.posts(), r@),
    {
        let items = self.store.items();
        let n = items.len();
        let mut r: Vec<Post> = Vec::new();
        let mut i: usize = 0;
        while i < n
            invariant
                n == items@.len(),
                i <= n,
                r@.len() == i,
                forall|j: int| 0 <= j < i ==> r@[j] == *items@[j].1,
            decreases n - i,
        {
            r.push(items[i].1.clone());
            i += 1;
        }
        proof {
            assert forall|j: int| 0 <= j < r@.len() implies self.posts().contains_pair(
                #[trigger] r@[j].id@,
                r@[j],
            ) by {
                assert(self.posts().contains_pair(items@[j].0@, *items@[j].1));
            }
            assert forall|a: int, b: int| 0 <= a < b < r@.len() implies r@[a].id@
                != r@[b].id@ by {
                assert(self.posts().contains_pair(items@[a].0@, *items@[a].1));
                assert(self.posts().contains_pair(items@[b].0@, *items@[b].1));
            }
        }
        r
    }

    /// Returns the post with the given identifier, if it exists.
    fn get(&self, id: &str) -> (r: Option<Post>)
        ensures
            match r {
                Some(p) => self.posts().contains_key(id@) && p == self.posts()[id@] && p.id@
                    == id@,
                None => !self.posts().contains_key(id@),
            },
    {
        match self.store.get(id) {
            Some(p) => Some(p.clone()),
            None => None,
        }
    }

    /// Creates a new post under a freshly generated identifier and stores it.
    fn create(&mut self, input: PostInput) -> (r: Post)
        ensures
            final(self).wf(),
            !old(self).posts().contains_key(r.id@),
            final(self).posts() == old(self).posts().insert(r.id@, r),
            r.author == input.author,
            r.content == input.content,
            r.date == input.date,
    {
        let id = self.store.fresh_key();
        let post = Post::from_input(id.clone(), input);
        self.store.insert(id, post.clone());
        post
    }

    /// Replaces the post stored under `id` with one built from `input`, or
    /// reports `None` if no post has that identifier.
    fn update(&mut self, id: &str, input: PostInput) -> (r: Option<Post>)
        ensures
            final(self).wf(),
            match r {
                Some(p) => {
                    &&& old(self).posts().contains_key(id@)
                    &&& p.id@ == id@
                    &&& p.author == input.author
                    &&& p.content == input.content
                    &&& p.date == input.date
                    &&& final(self).posts() == old(self).posts().insert(id@, p)
                },
                None => {
                    &&& !old(self).posts().contains_key(id@)
                    &&& final(self).posts() == old(self).posts()
                },
            },
    {
        if self.store.contains(id) {
            let post = Post::from_input(id.to_owned(), input);
            self.store.insert(id.to_owned(), post.clone());
            Some(post)
        } else {
            None
        }
    }

    /// Deletes the post with the given identifier; reports whether a post
    /// was removed.
    fn delete(&mut self, id: &str) -> (r: bool)
        ensures
            final(self).wf(),
            r == old(self).posts().contains_key(id@),
            final(self).posts() == old(self).posts().remove(id@),
    {
        self.store.remove(id)
    }
}

} // verus!
