//! The slug resolver: finds the document whose title exactly equals the
//! requested identifier, scanning in the order given. The first occurrence
//! wins when the store holds duplicate titles; a miss is a normal outcome,
//! not a failure.

use vstd::prelude::*;
use crate::post::{Post, PostV, posts_model};

verus! {

/// The index of the first post whose title equals `t`, or `None` where no
/// title matches.
pub open spec fn resolve_spec(t: Seq<char>, posts: Seq<PostV>) -> Option<int>
    decreases posts.len(),
{
    if posts.len() == 0 {
        None
    } else if posts[0].title == t {
        Some(0int)
    } else {
        match resolve_spec(t, posts.skip(1)) {
            Some(i) => Some(i + 1),
            None => None,
        }
    }
}

/// Resolution scans in the given order and yields exactly the first match:
/// a hit is an index whose title equals the request and before which no
/// title does, and a miss means no title at all equals the request.
pub proof fn lemma_resolve_characterizes(t: Seq<char>, posts: Seq<PostV>)
    ensures
        match resolve_spec(t, posts) {
            Some(i) => {
                &&& 0 <= i < posts.len()
                &&& posts[i].title == t
                &&& forall|j: int| 0 <= j < i ==> (#[trigger] posts[j]).title != t
            },
            None => forall|j: int| 0 <= j < posts.len() ==> (#[trigger] posts[j]).title != t,
        },
    decreases posts.len(),
{
    if posts.len() == 0 {
    } else if posts[0].title == t {
    } else {
        lemma_resolve_characterizes(t, posts.skip(1));
        assert forall|j: int| 1 <= j < posts.len() implies posts[j] == posts.skip(1)[j - 1] by {}
    }
}

/// When some title before position `i` already equals the request, position
/// `i` is not the result; the earlier occurrence wins. Stated the other way
/// round: a position that matches and has no earlier match is the result.
pub proof fn lemma_resolve_first_wins(t: Seq<char>, posts: Seq<PostV>, i: int)
    requires
        0 <= i < posts.len(),
        posts[i].title == t,
        forall|j: int| 0 <= j < i ==> (#[trigger] posts[j]).title != t,
    ensures
        resolve_spec(t, posts) == Some(i),
{
    lemma_resolve_characterizes(t, posts);
    match resolve_spec(t, posts) {
        Some(k) => {
            if k < i {
                assert(posts[k].title != t);
            }
            if i < k {
                assert(posts[i].title != t);
            }
        },
        None => {
            assert(posts[i].title != t);
        },
    }
}

/// A request that matches no stored title resolves to a miss, whatever the
/// documents are.
pub proof fn lemma_resolve_missing(t: Seq<char>, posts: Seq<PostV>)
    requires
        forall|j: int| 0 <= j < posts.len() ==> (#[trigger] posts[j]).title != t,
    ensures
        resolve_spec(t, posts) is None,
{
    lemma_resolve_characterizes(t, posts);
    match resolve_spec(t, posts) {
        Some(i) => {
            assert(posts[i].title != t);
        },
        None => {},
    }
}

/// Finds the first post whose title exactly equals the requested slug.
/// Comparison is case-sensitive; `None` reports the normal "not found"
/// outcome.
pub fn resolve(requested: &str, posts: &Vec<Post>) -> (r: Option<usize>)
    ensures
        match r {
            Some(i) => resolve_spec(requested@, posts_model(posts@)) == Some(i as int),
            None => resolve_spec(requested@, posts_model(posts@)) is None,
        },
{
    let req: String = requested.to_owned();
    let n = posts.len();
    for i in 0..n
        invariant
            n == posts@.len(),
            req@ == requested@,
            forall|j: int| 0 <= j < i ==> (#[trigger] posts@[j])@.title != requested@,
    {
        if posts[i].post_title == req {
            proof {
                lemma_resolve_first_wins(requested@, posts_model(posts@), i as int);
            }
            return Some(i);
        }
    }
    proof {
        lemma_resolve_missing(requested@, posts_model(posts@));
    }
    None
}

} // verus!
