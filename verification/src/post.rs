//! The central entity: a stored content record with title, creation
//! timestamp and body. The title doubles as the externally visible slug.

use vstd::prelude::*;
use crate::datetime::DateTime;

verus! {

/// One document as read from the store. Value-equal by content; the store's
/// surrogate key is never surfaced here.
#[derive(Clone, Debug)]
pub struct Post {
    pub post_title: String,
    pub post_date: DateTime,
    pub post_body: String,
}

/// The mathematical model of a post: its text fields as character sequences.
pub ghost struct PostV {
    pub title: Seq<char>,
    pub date: DateTime,
    pub body: Seq<char>,
}

impl PostV {
    /// A post is well formed when its timestamp is.
    pub open spec fn wf(self) -> bool {
        self.date.wf()
    }
}

impl View for Post {
    type V = PostV;

    open spec fn view(&self) -> PostV {
        PostV { title: self.post_title@, date: self.post_date, body: self.post_body@ }
    }
}

impl Post {
    /// A post is well formed when its timestamp is.
    pub open spec fn wf(self) -> bool {
        self@.wf()
    }
}

/// The models of a sequence of posts.
pub open spec fn posts_model(posts: Seq<Post>) -> Seq<PostV> {
    posts.map_values(|p: Post| p@)
}

} // verus!
