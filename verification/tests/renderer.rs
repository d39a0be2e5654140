use markd::datetime::DateTime;
use markd::post::Post;
use markd::render::{escape_html, rmdashes, IndexTemplate, PostTemplate, render_post};

fn post(title: &str, body: &str) -> Post {
    Post {
        post_title: title.to_string(),
        post_date: DateTime { year: 2024, month: 3, day: 7, hour: 9, minute: 5, second: 2 },
        post_body: body.to_string(),
    }
}

#[test]
fn rmdashes_replaces_every_dash() {
    assert_eq!(rmdashes("hello-world"), "hello world");
    assert_eq!(rmdashes("a-b-c"), "a b c");
    assert_eq!(rmdashes("nodash"), "nodash");
    assert_eq!(rmdashes(""), "");
    assert_eq!(rmdashes("---"), "   ");
}

#[test]
fn escape_html_covers_special_characters() {
    assert_eq!(escape_html("a<b&c>'\""), "a&lt;b&amp;c&gt;&#x27;&quot;");
    assert_eq!(escape_html("plain"), "plain");
    assert_eq!(escape_html(""), "");
}

#[test]
fn context_keeps_raw_title_and_formats_date() {
    let t = PostTemplate::from_post(&post("hello-world", "content"));
    assert_eq!(t.post_title, "hello-world");
    assert_eq!(t.post_date, "2024-03-07 09:05:02");
    assert_eq!(t.post_body, "content");
}

#[test]
fn listing_has_one_link_per_post_in_store_order() {
    let posts = vec![post("hello-world", "1"), post("other-post", "2")];
    let html = IndexTemplate::from_posts(&posts).render();
    assert_eq!(html.matches("<li><a href=\"/post/").count(), 2);
    let first = html.find("/post/hello-world").expect("first link");
    let second = html.find("/post/other-post").expect("second link");
    assert!(first < second);
}

#[test]
fn display_filter_touches_text_but_not_link_target() {
    let posts = vec![post("hello-world", "1")];
    let html = IndexTemplate::from_posts(&posts).render();
    assert!(html.contains("<li><a href=\"/post/hello-world\">hello world</a></li>"));
    assert!(!html.contains("href=\"/post/hello world\""));
}

#[test]
fn listing_escapes_titles() {
    let posts = vec![post("a<b", "1")];
    let html = IndexTemplate::from_posts(&posts).render();
    assert!(html.contains("/post/a&lt;b"));
    assert!(!html.contains("<b\">"));
}

#[test]
fn single_page_shows_title_date_and_body() {
    let t = PostTemplate::from_post(&post("hello-world", "content"));
    let html = render_post(&t);
    assert!(html.contains("<h1>hello world</h1>"));
    assert!(html.contains("2024-03-07 09:05:02"));
    assert!(html.contains("<div class=\"post\">content</div>"));
}

#[test]
fn single_page_escapes_body() {
    let t = PostTemplate::from_post(&post("t", "<script>alert('x')</script>"));
    let html = render_post(&t);
    assert!(!html.contains("<script>"));
    assert!(html.contains("&lt;script&gt;alert(&#x27;x&#x27;)&lt;/script&gt;"));
}
