//! The domain model: one entity, the blog post.

use vstd::prelude::*;

use crate::oid::PostId;

verus! {

/// A blog post. `id` is absent until the store assigns it on insertion and
/// immutable thereafter; the other five fields are the mutable content.
pub struct Blog {
    pub id: Option<PostId>,
    pub title: String,
    pub body: String,
    pub author: String,
    pub likes: u32,
    pub dislikes: u32,
}

/// The mathematical value of a [`Blog`]: the same fields over `Seq<char>`.
pub ghost struct BlogView {
    pub id: Option<PostId>,
    pub title: Seq<char>,
    pub body: Seq<char>,
    pub author: Seq<char>,
    pub likes: u32,
    pub dislikes: u32,
}

impl View for Blog {
    type V = BlogView;

    open spec fn view(&self) -> BlogView {
        BlogView {
            id: self.id,
            title: self.title@,
            body: self.body@,
            author: self.author@,
            likes: self.likes,
            dislikes: self.dislikes,
        }
    }
}

impl Clone for Blog {
    fn clone(&self) -> (r: Self)
        ensures
            r@ == self@,
    {
        Blog {
            id: self.id,
            title: self.title.clone(),
            body: self.body.clone(),
            author: self.author.clone(),
            likes: self.likes,
            dislikes: self.dislikes,
        }
    }
}

/// Two post values hold the same content: equal in every mutable field,
/// while their `id` fields may differ.
pub open spec fn content_eq(a: BlogView, b: BlogView) -> bool {
    &&& a.title == b.title
    &&& a.body == b.body
    &&& a.author == b.author
    &&& a.likes == b.likes
    &&& a.dislikes == b.dislikes
}

/// The content of `b` under the identifier `id`.
pub open spec fn with_id(b: BlogView, id: PostId) -> BlogView {
    BlogView { id: Some(id), ..b }
}

} // verus!
