use markd::datetime::DateTime;
use markd::post::Post;
use markd::resolve::resolve;

fn post(title: &str, body: &str) -> Post {
    Post {
        post_title: title.to_string(),
        post_date: DateTime { year: 1970, month: 1, day: 1, hour: 0, minute: 0, second: 0 },
        post_body: body.to_string(),
    }
}

#[test]
fn finds_exact_title() {
    let posts = vec![post("first", "1"), post("second", "2"), post("third", "3")];
    assert_eq!(resolve("second", &posts), Some(1));
    assert_eq!(resolve("third", &posts), Some(2));
}

#[test]
fn first_of_duplicate_titles_wins() {
    let posts = vec![post("b", "0"), post("a", "earlier"), post("a", "later")];
    assert_eq!(resolve("a", &posts), Some(1));
}

#[test]
fn missing_title_is_not_found() {
    let posts = vec![post("a", "1"), post("b", "2")];
    assert_eq!(resolve("missing", &posts), None);
}

#[test]
fn empty_collection_is_not_found() {
    let posts: Vec<Post> = vec![];
    assert_eq!(resolve("anything", &posts), None);
}

#[test]
fn comparison_is_case_sensitive() {
    let posts = vec![post("Hello", "1")];
    assert_eq!(resolve("hello", &posts), None);
    assert_eq!(resolve("Hello", &posts), Some(0));
}

#[test]
fn display_form_does_not_match() {
    let posts = vec![post("hello-world", "1")];
    assert_eq!(resolve("hello world", &posts), None);
    assert_eq!(resolve("hello-world", &posts), Some(0));
}
