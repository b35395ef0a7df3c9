//! The post entity and its input counterpart.

use vstd::prelude::*;

verus! {

/// A stored blog post.
///
/// `id` is assigned by the store on creation and never changes afterwards;
/// the remaining fields are replaced wholesale on update. `date` is a
/// timestamp carried as an integer tick count; the crate never interprets it.
pub struct Post {
    pub id: String,
    pub author: String,
    pub content: String,
    pub date: i64,
}

/// A post as callers supply it: a [`Post`] without its identifier.
pub struct PostInput {
    pub author: String,
    pub content: String,
    pub date: i64,
}

impl Post {
    /// Builds the post that the store keeps under `id` for the given input.
    pub fn from_input(id: String, input: PostInput) -> (r: Post)
        ensures
            r.id == id,
            r.author == input.author,
            r.content == input.content,
            r.date == input.date,
    {
        Post { id, author: input.author, content: input.content, date: input.date }
    }
}

impl Clone for Post {
    fn clone(&self) -> (r: Self)
        ensures
            r == *self,
    {
        Post {
            id: self.id.clone(),
            author: self.author.clone(),
            content: self.content.clone(),
            date: self.date,
        }
    }
}

impl Clone for PostInput {
    fn clone(&self) -> (r: Self)
        ensures
            r == *self,
    {
        PostInput {
            author: self.author.clone(),
            content: self.content.clone(),
            date: self.date,
        }
    }
}

} // verus!
