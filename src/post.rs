//! One fetched record and its mathematical model.
use vstd::prelude::*;

verus! {

/// The model of a `Post`: its id and the characters of its title and body.
pub ghost struct PostModel {
    pub id: u32,
    pub title: Seq<char>,
    pub body: Seq<char>,
}

/// One record of the list, immutable once built.
#[derive(Debug, Clone, PartialEq, Eq)]
pub struct Post {
    id: u32,
    title: String,
    body: String,
}

impl View for Post {
    type V = PostModel;

    closed spec fn view(&self) -> PostModel {
        PostModel { id: self.id, title: self.title@, body: self.body@ }
    }
}

/// The models of a sequence of posts, in the same order.
pub open spec fn posts_model(posts: Seq<Post>) -> Seq<PostModel> {
    posts.map_values(|p: Post| p@)
}

/// No two records of `posts` share an id.
pub open spec fn ids_unique(posts: Seq<PostModel>) -> bool {
    forall|i: int, j: int|
        0 <= i < posts.len() && 0 <= j < posts.len() && i != j ==> #[trigger] posts[i].id
            != #[trigger] posts[j].id
}

impl Post {
    pub fn new(id: u32, title: String, body: String) -> (r: Post)
        ensures
            r@ == (PostModel { id, title: title@, body: body@ }),
    {
        Post { id, title, body }
    }

    pub fn id(&self) -> (r: u32)
        ensures
            r == self@.id,
    {
        self.id
    }

    pub fn title(&self) -> (r: &String)
        ensures
            r@ == self@.title,
    {
        &self.title
    }

    pub fn body(&self) -> (r: &String)
        ensures
            r@ == self@.body,
    {
        &self.body
    }
}

} // verus!
