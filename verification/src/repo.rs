//! The document repository: maps every row of one full-table read to a post,
//! preserving store order. A failed read surfaces as a `StoreError`; a
//! malformed row never fails the batch.

use vstd::prelude::*;
use crate::post::{Post, posts_model};
use crate::row::{Value, ValueV, map_row, map_row_spec, rows_model};

verus! {

/// A query-execution or connection failure of the underlying store. Carries
/// the store's own message; never raised for malformed row data.
#[derive(Clone, Debug)]
pub struct StoreError {
    pub message: String,
}

/// The fixed read statement the repository issues: the three mapped columns
/// of the whole document table.
pub fn select_statement() -> (s: &'static str)
    ensures
        s@ == select_statement_spec(),
{
    "select post_title, post_date, post_body from myposts"
}

/// The text of the fixed read statement.
pub open spec fn select_statement_spec() -> Seq<char> {
    "select post_title, post_date, post_body from myposts"@
}

/// The models of the posts a batch of rows maps to, row by row, in store
/// order.
pub open spec fn map_rows_spec(rows: Seq<Seq<ValueV>>) -> Seq<crate::post::PostV> {
    rows.map_values(|r: Seq<ValueV>| map_row_spec(r))
}

/// Maps every row of a batch, preserving the order the store returned.
pub fn map_rows(rows: &Vec<Vec<Value>>) -> (posts: Vec<Post>)
    ensures
        posts_model(posts@) == map_rows_spec(rows_model(rows@)),
        forall|i: int| 0 <= i < posts@.len() ==> (#[trigger] posts@[i]).wf(),
{
    let mut posts: Vec<Post> = Vec::new();
    let n = rows.len();
    for i in 0..n
        invariant
            n == rows@.len(),
            posts@.len() == i,
            forall|j: int| 0 <= j < i ==> (#[trigger] posts@[j])@ == map_row_spec(
                rows_model(rows@)[j],
            ),
            forall|j: int| 0 <= j < i ==> (#[trigger] posts@[j]).wf(),
    {
        let p = map_row(&rows[i]);
        posts.push(p);
    }
    proof {
        assert(posts_model(posts@) =~= map_rows_spec(rows_model(rows@)));
    }
    posts
}

/// The repository's read path, given the outcome of the one fixed query:
/// every returned row becomes a post, in store order; a store failure is
/// passed through unchanged. The query itself runs outside this crate.
pub fn get_posts(outcome: Result<Vec<Vec<Value>>, StoreError>) -> (r: Result<
    Vec<Post>,
    StoreError,
>)
    ensures
        match outcome {
            Ok(rows) => {
                &&& r is Ok
                &&& posts_model(r->Ok_0@) == map_rows_spec(rows_model(rows@))
                &&& forall|i: int| 0 <= i < r->Ok_0@.len() ==> (#[trigger] r->Ok_0@[i]).wf()
            },
            Err(e) => r == Err::<Vec<Post>, StoreError>(e),
        },
{
    match outcome {
        Ok(rows) => Ok(map_rows(&rows)),
        Err(e) => Err(e),
    }
}

} // verus!
