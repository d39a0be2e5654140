//! The page renderer: pure projections from posts to presentation contexts
//! and from contexts to HTML markup. Text is HTML-escaped; a stylistic dash
//! in a title is shown as a space, while the link identifier keeps the raw
//! title.

use vstd::prelude::*;
use vstd::string::{StrSliceExecFns, StringExecFns};
use crate::datetime::fmt_spec;
use crate::post::{Post, PostV};

verus! {

/// The display form of a title: every dash becomes a space. The link
/// identifier is never run through this.
pub open spec fn rmdashes_spec(s: Seq<char>) -> Seq<char> {
    s.map_values(|c: char| if c == '-' { ' ' } else { c })
}

/// Replaces each dash in a title with a space, for human-readable display.
pub fn rmdashes(title: &str) -> (r: String)
    ensures
        r@ == rmdashes_spec(title@),
{
    let n = title.unicode_len();
    let mut out = String::new();
    for i in 0..n
        invariant
            n == title@.len(),
            out@ == rmdashes_spec(title@.take(i as int)),
    {
        let c = title.get_char(i);
        if c == '-' {
            out.append(" ");
        } else {
            out.append(title.substring_char(i, i + 1));
        }
        proof {
            reveal_strlit(" ");
            assert(out@ =~= rmdashes_spec(title@.take(i as int + 1)));
        }
    }
    proof {
        assert(title@.take(n as int) =~= title@);
    }
    out
}

/// The HTML escape of one character.
pub open spec fn escape_char_spec(c: char) -> Seq<char> {
    if c == '&' {
        "&amp;"@
    } else if c == '<' {
        "&lt;"@
    } else if c == '>' {
        "&gt;"@
    } else if c == '"' {
        "&quot;"@
    } else if c == '\'' {
        "&#x27;"@
    } else {
        seq![c]
    }
}

/// The HTML escape of a text, character by character.
pub open spec fn escape_spec(s: Seq<char>) -> Seq<char>
    decreases s.len(),
{
    if s.len() == 0 {
        Seq::empty()
    } else {
        escape_spec(s.drop_last()) + escape_char_spec(s.last())
    }
}

/// Escapes text for safe interpolation into HTML markup.
pub fn escape_html(s: &str) -> (r: String)
    ensures
        r@ == escape_spec(s@),
{
    let n = s.unicode_len();
    let mut out = String::new();
    for i in 0..n
        invariant
            n == s@.len(),
            out@ == escape_spec(s@.take(i as int)),
    {
        let c = s.get_char(i);
        if c == '&' {
            out.append("&amp;");
        } else if c == '<' {
            out.append("&lt;");
        } else if c == '>' {
            out.append("&gt;");
        } else if c == '"' {
            out.append("&quot;");
        } else if c == '\'' {
            out.append("&#x27;");
        } else {
            out.append(s.substring_char(i, i + 1));
        }
        proof {
            assert(s@.take(i as int + 1).drop_last() =~= s@.take(i as int));
            assert(out@ =~= escape_spec(s@.take(i as int + 1)));
        }
    }
    proof {
        assert(s@.take(n as int) =~= s@);
    }
    out
}

/// The presentation context of one post: title and body as stored, and the
/// creation date already rendered in the fixed pattern.
#[derive(Clone, Debug)]
pub struct PostTemplate {
    pub post_title: String,
    pub post_date: String,
    pub post_body: String,
}

/// The mathematical model of a presentation context.
pub ghost struct PostTemplateV {
    pub title: Seq<char>,
    pub date: Seq<char>,
    pub body: Seq<char>,
}

impl View for PostTemplate {
    type V = PostTemplateV;

    open spec fn view(&self) -> PostTemplateV {
        PostTemplateV { title: self.post_title@, date: self.post_date@, body: self.post_body@ }
    }
}

/// The context a post projects to: raw title, formatted date, raw body.
pub open spec fn template_spec(p: PostV) -> PostTemplateV {
    PostTemplateV { title: p.title, date: fmt_spec(p.date), body: p.body }
}

/// The contexts of a sequence of posts, in the same order.
pub open spec fn templates_spec(posts: Seq<PostV>) -> Seq<PostTemplateV> {
    posts.map_values(|p: PostV| template_spec(p))
}

/// The models of a sequence of contexts.
pub open spec fn templates_model(ts: Seq<PostTemplate>) -> Seq<PostTemplateV> {
    ts.map_values(|t: PostTemplate| t@)
}

impl PostTemplate {
    /// Projects one post into its presentation context.
    pub fn from_post(p: &Post) -> (t: PostTemplate)
        requires
            p.wf(),
        ensures
            t@ == template_spec(p@),
    {
        PostTemplate {
            post_title: p.post_title.clone(),
            post_date: p.post_date.fmt(),
            post_body: p.post_body.clone(),
        }
    }
}

/// The homepage context: every post's context, in store order.
pub struct IndexTemplate {
    pub posts: Vec<PostTemplate>,
}

/// One listing entry: an anchor whose target is the raw title and whose
/// text is the display-filtered title, both HTML-escaped.
pub open spec fn link_spec(t: PostTemplateV) -> Seq<char> {
    "<li><a href=\"/post/"@ + escape_spec(t.title) + "\">"@ + escape_spec(rmdashes_spec(t.title))
        + "</a></li>\n"@
}

/// The listing entries of a sequence of contexts, one per context, in the
/// given order.
pub open spec fn links_spec(ts: Seq<PostTemplateV>) -> Seq<char>
    decreases ts.len(),
{
    if ts.len() == 0 {
        Seq::empty()
    } else {
        links_spec(ts.drop_last()) + link_spec(ts.last())
    }
}

/// The fixed markup that precedes the listing entries.
pub open spec fn index_header_spec() -> Seq<char> {
    "<!DOCTYPE html>\n<html>\n<head><title>markd</title></head>\n<body>\n<ul>\n"@
}

/// The fixed markup that follows the listing entries.
pub open spec fn index_footer_spec() -> Seq<char> {
    "</ul>\n</body>\n</html>\n"@
}

/// The whole homepage: header, one link per context in order, footer.
pub open spec fn index_render_spec(ts: Seq<PostTemplateV>) -> Seq<char> {
    index_header_spec() + links_spec(ts) + index_footer_spec()
}

/// The listing grows by exactly one entry per document, appended in store
/// order; the display filter shapes only the anchor text, while the link
/// target takes the raw title.
pub proof fn lemma_listing_links(ts: Seq<PostTemplateV>, t: PostTemplateV)
    ensures
        links_spec(ts.push(t)) == links_spec(ts) + link_spec(t),
        link_spec(t) == "<li><a href=\"/post/"@ + escape_spec(t.title) + "\">"@ + escape_spec(
            rmdashes_spec(t.title),
        ) + "</a></li>\n"@,
{
    assert(ts.push(t).drop_last() =~= ts);
}

impl IndexTemplate {
    /// Projects every post into the homepage context, preserving order.
    pub fn from_posts(posts: &Vec<Post>) -> (t: IndexTemplate)
        requires
            forall|i: int| 0 <= i < posts@.len() ==> (#[trigger] posts@[i]).wf(),
        ensures
            templates_model(t.posts@) == templates_spec(crate::post::posts_model(posts@)),
    {
        let mut ts: Vec<PostTemplate> = Vec::new();
        let n = posts.len();
        for i in 0..n
            invariant
                n == posts@.len(),
                ts@.len() == i,
                forall|j: int| 0 <= j < posts@.len() ==> (#[trigger] posts@[j]).wf(),
                forall|j: int| 0 <= j < i ==> (#[trigger] ts@[j])@ == template_spec(posts@[j]@),
        {
            let t = PostTemplate::from_post(&posts[i]);
            ts.push(t);
        }
        proof {
            assert(templates_model(ts@) =~= templates_spec(crate::post::posts_model(posts@)));
        }
        IndexTemplate { posts: ts }
    }

    /// Renders the homepage: one link per post, in the order given.
    pub fn render(&self) -> (html: String)
        ensures
            html@ == index_render_spec(templates_model(self.posts@)),
    {
        let mut out = String::new();
        out.append("<!DOCTYPE html>\n<html>\n<head><title>markd</title></head>\n<body>\n<ul>\n");
        let n = self.posts.len();
        for i in 0..n
            invariant
                n == self.posts@.len(),
                out@ == index_header_spec() + links_spec(templates_model(self.posts@).take(i as int)),
        {
            let entry = &self.posts[i];
            out.append("<li><a href=\"/post/");
            let target = escape_html(entry.post_title.as_str());
            out.append(target.as_str());
            out.append("\">");
            let display = rmdashes(entry.post_title.as_str());
            let text = escape_html(display.as_str());
            out.append(text.as_str());
            out.append("</a></li>\n");
            proof {
                let ts = templates_model(self.posts@);
                assert(ts.take(i as int + 1).drop_last() =~= ts.take(i as int));
                assert(out@ =~= index_header_spec() + links_spec(ts.take(i as int + 1)));
            }
        }
        out.append("</ul>\n</body>\n</html>\n");
        proof {
            let ts = templates_model(self.posts@);
            assert(ts.take(n as int) =~= ts);
            assert(out@ =~= index_render_spec(ts));
        }
        out
    }
}

/// The whole single-document page: display title, formatted date, body,
/// every text field HTML-escaped.
pub open spec fn post_render_spec(t: PostTemplateV) -> Seq<char> {
    "<!DOCTYPE html>\n<html>\n<head><title>"@ + escape_spec(rmdashes_spec(t.title))
        + "</title></head>\n<body>\n<h1>"@ + escape_spec(rmdashes_spec(t.title))
        + "</h1>\n<p class=\"date\">"@ + escape_spec(t.date) + "</p>\n<div class=\"post\">"@
        + escape_spec(t.body) + "</div>\n</body>\n</html>\n"@
}

/// Renders one resolved post as a full page.
pub fn render_post(t: &PostTemplate) -> (html: String)
    ensures
        html@ == post_render_spec(t@),
{
    let display = rmdashes(t.post_title.as_str());
    let title = escape_html(display.as_str());
    let date = escape_html(t.post_date.as_str());
    let body = escape_html(t.post_body.as_str());
    let mut out = String::new();
    out.append("<!DOCTYPE html>\n<html>\n<head><title>");
    out.append(title.as_str());
    out.append("</title></head>\n<body>\n<h1>");
    out.append(title.as_str());
    out.append("</h1>\n<p class=\"date\">");
    out.append(date.as_str());
    out.append("</p>\n<div class=\"post\">");
    out.append(body.as_str());
    out.append("</div>\n</body>\n</html>\n");
    out
}

} // verus!
