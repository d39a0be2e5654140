//! The read path per request, given the outcome of the one store query:
//! repository, resolver and renderer collapsed into one pipeline that decides
//! the status code and the page body. The query itself, and the HTTP
//! transport, stay outside this crate.

use vstd::prelude::*;
use vstd::string::StringExecFns;
use crate::post::{PostV, posts_model};
use crate::repo::{StoreError, get_posts, map_rows_spec};
use crate::render::{
    IndexTemplate, PostTemplate, index_render_spec, index_header_spec, index_footer_spec,
    links_spec, post_render_spec, template_spec, templates_spec, templates_model, render_post,
};
use crate::resolve::{resolve, resolve_spec, lemma_resolve_characterizes};
use crate::row::{Value, ValueV, rows_model};

verus! {

/// What a request yields: a status code and the page body.
pub struct Response {
    pub status: u16,
    pub body: String,
}

/// The body of the page a failed store read surfaces as.
pub open spec fn store_error_page_spec(message: Seq<char>) -> Seq<char> {
    "store error: "@ + message
}

/// The plain-text body of the "missing resource" response.
pub open spec fn not_found_page_spec() -> Seq<char> {
    "post not found"@
}

/// The homepage body for the rows one full-table read returned.
pub open spec fn index_page_spec(rows: Seq<Seq<ValueV>>) -> Seq<char> {
    index_render_spec(templates_spec(map_rows_spec(rows)))
}

/// Builds the body of the store-failure page.
fn store_error_page(e: &StoreError) -> (body: String)
    ensures
        body@ == store_error_page_spec(e.message@),
{
    let mut body = String::new();
    body.append("store error: ");
    body.append(e.message.as_str());
    body
}

/// The listing endpoint: every stored document becomes one link, in store
/// order; an empty store is a normal page, never an error; only a failed
/// store read is a server-side failure.
pub fn index_response(outcome: Result<Vec<Vec<Value>>, StoreError>) -> (r: Response)
    ensures
        match outcome {
            Ok(rows) => r.status == 200 && r.body@ == index_page_spec(rows_model(rows@)),
            Err(e) => r.status == 500 && r.body@ == store_error_page_spec(e.message@),
        },
{
    match get_posts(outcome) {
        Ok(posts) => {
            let template = IndexTemplate::from_posts(&posts);
            Response { status: 200, body: template.render() }
        },
        Err(e) => Response { status: 500, body: store_error_page(&e) },
    }
}

/// The single-document endpoint: the requested slug resolved against the
/// stored documents. A hit renders the post; a miss is the plain-text
/// "missing resource" response; only a failed store read is a server-side
/// failure.
pub fn post_response(slug: &str, outcome: Result<Vec<Vec<Value>>, StoreError>) -> (r: Response)
    ensures
        match outcome {
            Ok(rows) => {
                let posts = map_rows_spec(rows_model(rows@));
                match resolve_spec(slug@, posts) {
                    Some(i) => r.status == 200 && r.body@ == post_render_spec(
                        template_spec(posts[i]),
                    ),
                    None => r.status == 404 && r.body@ == not_found_page_spec(),
                }
            },
            Err(e) => r.status == 500 && r.body@ == store_error_page_spec(e.message@),
        },
{
    match get_posts(outcome) {
        Ok(posts) => {
            match resolve(slug, &posts) {
                Some(i) => {
                    proof {
                        lemma_resolve_characterizes(slug@, posts_model(posts@));
                    }
                    let template = PostTemplate::from_post(&posts[i]);
                    Response { status: 200, body: render_post(&template) }
                },
                None => Response { status: 404, body: "post not found".to_owned() },
            }
        },
        Err(e) => Response { status: 500, body: store_error_page(&e) },
    }
}

/// Every stored row contributes exactly one listing context, in
/// store-returned order; with each context rendering as exactly one link,
/// the listing holds one link per stored document.
pub proof fn lemma_one_context_per_row(rows: Seq<Seq<ValueV>>)
    ensures
        templates_spec(map_rows_spec(rows)).len() == rows.len(),
        forall|i: int|
            0 <= i < rows.len() ==> templates_spec(map_rows_spec(rows))[i] == template_spec(
                crate::row::map_row_spec(rows[i]),
            ),
{
}

/// An empty store yields the bare page frame with zero links; together with
/// the listing endpoint's contract, such a read is status 200 and never an
/// error.
pub proof fn lemma_empty_store_index(rows: Seq<Seq<ValueV>>)
    requires
        rows.len() == 0,
    ensures
        index_page_spec(rows) == index_header_spec() + index_footer_spec(),
{
    assert(templates_spec(map_rows_spec(rows)).len() == 0);
    assert(links_spec(templates_spec(map_rows_spec(rows))) == Seq::<char>::empty());
    assert(index_page_spec(rows) =~= index_header_spec() + index_footer_spec());
}

/// Two listing responses built from the same store contents are identical:
/// same status, same body, so the same links in the same order. The page is
/// a function of the returned rows alone.
pub proof fn lemma_index_idempotent(r1: Response, r2: Response, rows: Seq<Seq<ValueV>>)
    requires
        r1.status == 200,
        r1.body@ == index_page_spec(rows),
        r2.status == 200,
        r2.body@ == index_page_spec(rows),
    ensures
        r1.status == r2.status,
        r1.body@ == r2.body@,
{
}

} // verus!
