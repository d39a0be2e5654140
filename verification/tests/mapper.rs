use markd::datetime::DateTime;
use markd::post::Post;
use markd::row::{map_row, Value};

fn text(s: &str) -> Value {
    Value::Text(s.to_string())
}

fn epoch() -> DateTime {
    DateTime { year: 1970, month: 1, day: 1, hour: 0, minute: 0, second: 0 }
}

fn stamp(year: u32, month: u32, day: u32, hour: u32, minute: u32, second: u32) -> DateTime {
    DateTime { year, month, day, hour, minute, second }
}

#[test]
fn maps_well_formed_row() {
    let row = vec![
        text("hello-world"),
        Value::Stamp(stamp(2024, 3, 7, 9, 5, 2)),
        text("content"),
    ];
    let p: Post = map_row(&row);
    assert_eq!(p.post_title, "hello-world");
    assert_eq!(p.post_date, stamp(2024, 3, 7, 9, 5, 2));
    assert_eq!(p.post_body, "content");
}

#[test]
fn malformed_timestamp_keeps_row() {
    let row = vec![text("hello-world"), text("not a date"), text("content")];
    let p = map_row(&row);
    assert_eq!(p.post_title, "hello-world");
    assert_eq!(p.post_date, epoch());
    assert_eq!(p.post_body, "content");
}

#[test]
fn out_of_range_timestamp_defaults() {
    let row = vec![
        text("t"),
        Value::Stamp(stamp(2024, 13, 1, 0, 0, 0)),
        text("b"),
    ];
    let p = map_row(&row);
    assert_eq!(p.post_title, "t");
    assert_eq!(p.post_date, epoch());
    assert_eq!(p.post_body, "b");
}

#[test]
fn null_and_missing_columns_default() {
    let row = vec![Value::Null];
    let p = map_row(&row);
    assert_eq!(p.post_title, "");
    assert_eq!(p.post_date, epoch());
    assert_eq!(p.post_body, "");
}

#[test]
fn empty_row_maps_to_defaults() {
    let row: Vec<Value> = vec![];
    let p = map_row(&row);
    assert_eq!(p.post_title, "");
    assert_eq!(p.post_date, epoch());
    assert_eq!(p.post_body, "");
}

#[test]
fn mistyped_title_defaults_but_date_survives() {
    let row = vec![
        Value::Other,
        Value::Stamp(stamp(1999, 12, 31, 23, 59, 59)),
        text("body"),
    ];
    let p = map_row(&row);
    assert_eq!(p.post_title, "");
    assert_eq!(p.post_date, stamp(1999, 12, 31, 23, 59, 59));
    assert_eq!(p.post_body, "body");
}

#[test]
fn date_formats_with_fixed_pattern() {
    assert_eq!(DateTime::zero().fmt(), "1970-01-01 00:00:00");
    assert_eq!(stamp(2024, 3, 7, 9, 5, 2).fmt(), "2024-03-07 09:05:02");
    assert_eq!(stamp(999, 10, 31, 23, 59, 59).fmt(), "0999-10-31 23:59:59");
}
