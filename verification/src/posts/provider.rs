//! The provider contract for the posts resource group.

use vstd::prelude::*;

verus! {

use crate::provider::Provider;
use crate::posts::model::{Post, PostInput};

/// `s` enumerates the posts of `m` exactly once each, in no promised order:
/// it has one element per key of `m`, every element is stored in `m` under
/// its own identifier, and no identifier repeats.
pub open spec fn lists_posts(m: Map<Seq<char>, Post>, s: Seq<Post>) -> bool {
    &&& s.len() == m.dom().len()
    &&& forall|i: int| 0 <= i < s.len() ==> m.contains_pair(#[trigger] s[i].id@, s[i])
    &&& forall|i: int, j: int| 0 <= i < j < s.len() ==> s[i].id@ != s[j].id@
}

/// Trait for managing blog post resources, providing basic CRUD operations.
///
/// It extends the [`Provider`] base trait and defines the full set of
/// operations behind the `/posts` endpoints. Implementors choose how the
/// data is held; the contract below fixes what each operation returns and
/// how it changes `posts()`, the map from identifier to stored post.
pub trait PostsProvider: Provider {
    /// The posts the provider currently holds, keyed by identifier.
    spec fn posts(&self) -> Map<Seq<char>, Post>;

    /// Internal well-formedness; constructors establish it and every
    /// operation preserves it.
    spec fn wf(&self) -> bool;

    /// Returns a snapshot of all posts; the order is not part of the
    /// contract.
    fn get_all(&self) -> (r: Vec<Post>)
        requires
            self.wf(),
        ensures
            lists_posts(self.posts(), r@),
    ;

    /// Returns the post stored under `id`, or `None` if there is none.
    fn get(&self, id: &str) -> (r: Option<Post>)
        requires
            self.wf(),
        ensures
            match r {
                Some(p) => self.posts().contains_key(id@) && p == self.posts()[id@] && p.id@
                    == id@,
                None => !self.posts().contains_key(id@),
            },
    ;

    /// Creates a new post from `input` under a freshly generated identifier
    /// and returns it.
    fn create(&mut self, input: PostInput) -> (r: Post)
        requires
            old(self).wf(),
        ensures
            final(self).wf(),
            !old(self).posts().contains_key(r.id@),
            final(self).posts() == old(self).posts().insert(r.id@, r),
            r.author == input.author,
            r.content == input.content,
            r.date == input.date,
    ;

    /// Replaces the post stored under `id` wholesale with one built from
    /// `input`, keeping the identifier; reports `None`, changing nothing,
    /// if there is no such post.
    fn update(&mut self, id: &str, input: PostInput) -> (r: Option<Post>)
        requires
            old(self).wf(),
        ensures
            final(self).wf(),
            match r {
                Some(p) => {
                    &&& old(self).posts().contains_key(id@)
                    &&& p.id@ == id@
                    &&& p.author == input.author
                    &&& p.content == input.content
                    &&& p.date == input.date
                    &&& final(self).posts() == old(self).posts().insert(id@, p)
                },
                None => {
                    &&& !old(self).posts().contains_key(id@)
                    &&& final(self).posts() == old(self).posts()
                },
            },
    ;

    /// Removes the post stored under `id`; reports whether one was removed.
    fn delete(&mut self, id: &str) -> (r: bool)
        requires
            old(self).wf(),
        ensures
            final(self).wf(),
            r == old(self).posts().contains_key(id@),
            final(self).posts() == old(self).posts().remove(id@),
    ;
}

} // verus!
