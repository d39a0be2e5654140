use markd::ingest::{ingest, insert_statement, sql_quote, NewPost};
use markd::datetime::DateTime;

#[test]
fn sql_quote_wraps_and_doubles_quotes() {
    assert_eq!(sql_quote("plain"), "'plain'");
    assert_eq!(sql_quote(""), "''");
    assert_eq!(sql_quote("it's"), "'it''s'");
    assert_eq!(sql_quote("'; drop table myposts; --"), "'''; drop table myposts; --'");
}

#[test]
fn insert_statement_quotes_every_value() {
    let p = NewPost {
        post_id: "id-1".to_string(),
        post_date: DateTime { year: 2024, month: 3, day: 7, hour: 9, minute: 5, second: 2 },
        post_title: "hello-world".to_string(),
        post_body: "content".to_string(),
    };
    assert_eq!(
        insert_statement(&p),
        "insert into myposts (post_id, post_date, post_title, post_body) values \
         ('id-1', '2024-03-07 09:05:02', 'hello-world', 'content')"
    );
}

#[test]
fn ingest_carries_title_and_body_unchanged() {
    let (record, sql) = ingest("hello-world", "content");
    assert_eq!(record.post_title, "hello-world");
    assert_eq!(record.post_body, "content");
    assert!(sql.contains("'hello-world'"));
    assert!(sql.contains("'content'"));
    assert!(sql.starts_with("insert into myposts (post_id, post_date, post_title, post_body) values ("));
}

#[test]
fn ingest_generates_a_fresh_hyphenated_identifier() {
    let (record, _) = ingest("t", "b");
    assert_eq!(record.post_id.chars().count(), 36);
    assert!(record
        .post_id
        .chars()
        .all(|c| c == '-' || c.is_ascii_digit() || ('a'..='f').contains(&c)));
    let (other, _) = ingest("t", "b");
    assert_ne!(record.post_id, other.post_id);
}

#[test]
fn ingest_timestamp_is_well_formed() {
    let (record, _) = ingest("t", "b");
    let d = record.post_date;
    assert!(d.is_wf());
    assert!((1..=12).contains(&d.month));
    assert!((1..=31).contains(&d.day));
    assert!(d.hour <= 23 && d.minute <= 59 && d.second <= 59);
    assert!(d.year >= 1970);
}

#[test]
fn ingest_body_with_quotes_cannot_break_the_statement() {
    let (_, sql) = ingest("title", "a 'quoted' body");
    assert!(sql.contains("'a ''quoted'' body'"));
    assert!(sql.ends_with("')"));
}
