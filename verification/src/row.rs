//! Raw rows from the store, and the best-effort mapper that turns a row into
//! a typed post. A malformed column degrades to the field's default value and
//! never drops the row.

use vstd::prelude::*;
use crate::datetime::DateTime;
use crate::post::{Post, PostV};

verus! {

/// One typed scalar value of a row, as this crate models it. Anything that
/// is neither text nor a timestamp carries no data the mapper reads.
#[derive(Clone, Debug)]
pub enum Value {
    Text(String),
    Stamp(DateTime),
    Null,
    Other,
}

/// The mathematical model of a scalar value.
pub ghost enum ValueV {
    Text(Seq<char>),
    Stamp(DateTime),
    Null,
    Other,
}

impl View for Value {
    type V = ValueV;

    open spec fn view(&self) -> ValueV {
        match self {
            Value::Text(s) => ValueV::Text(s@),
            Value::Stamp(d) => ValueV::Stamp(*d),
            Value::Null => ValueV::Null,
            Value::Other => ValueV::Other,
        }
    }
}

/// The model of one row.
pub open spec fn row_model(row: Seq<Value>) -> Seq<ValueV> {
    row.map_values(|v: Value| v@)
}

/// The model of a batch of rows.
pub open spec fn rows_model(rows: Seq<Vec<Value>>) -> Seq<Seq<ValueV>> {
    rows.map_values(|r: Vec<Value>| row_model(r@))
}

/// The text in the given column, or the empty string where the column is
/// missing or not text.
pub open spec fn text_field_spec(row: Seq<ValueV>, i: int) -> Seq<char> {
    if 0 <= i < row.len() {
        match row[i] {
            ValueV::Text(s) => s,
            _ => Seq::empty(),
        }
    } else {
        Seq::empty()
    }
}

/// The timestamp in the given column, or the default timestamp where the
/// column is missing, not a timestamp, or out of calendar range.
pub open spec fn stamp_field_spec(row: Seq<ValueV>, i: int) -> DateTime {
    if 0 <= i < row.len() {
        match row[i] {
            ValueV::Stamp(d) => if d.wf() {
                d
            } else {
                DateTime::zero_spec()
            },
            _ => DateTime::zero_spec(),
        }
    } else {
        DateTime::zero_spec()
    }
}

/// What the mapper yields for a row: one independent best-effort rule per
/// field, columns in the fixed order title, timestamp, body.
pub open spec fn map_row_spec(row: Seq<ValueV>) -> PostV {
    PostV {
        title: text_field_spec(row, 0),
        date: stamp_field_spec(row, 1),
        body: text_field_spec(row, 2),
    }
}

/// A row with a valid title but a malformed timestamp still maps, to a post
/// that keeps the title and body and takes the default timestamp: one bad
/// column never drops an otherwise readable row.
pub proof fn lemma_malformed_stamp_keeps_row(row: Seq<ValueV>, title: Seq<char>)
    requires
        row.len() >= 1,
        row[0] == ValueV::Text(title),
        row.len() >= 2 ==> !(row[1] is Stamp && row[1]->Stamp_0.wf()),
    ensures
        map_row_spec(row).title == title,
        map_row_spec(row).date == DateTime::zero_spec(),
        map_row_spec(row).body == text_field_spec(row, 2),
{
}

/// Extracts one text column, best-effort.
pub fn text_field(row: &Vec<Value>, i: usize) -> (s: String)
    ensures
        s@ == text_field_spec(row_model(row@), i as int),
{
    if i < row.len() {
        match &row[i] {
            Value::Text(s) => s.clone(),
            _ => String::new(),
        }
    } else {
        String::new()
    }
}

/// Extracts one timestamp column, best-effort.
pub fn stamp_field(row: &Vec<Value>, i: usize) -> (d: DateTime)
    ensures
        d == stamp_field_spec(row_model(row@), i as int),
        d.wf(),
{
    if i < row.len() {
        match &row[i] {
            Value::Stamp(d) => if d.is_wf() {
                *d
            } else {
                DateTime::zero()
            },
            _ => DateTime::zero(),
        }
    } else {
        DateTime::zero()
    }
}

/// Maps one raw row to a post. Each field is coerced independently; a
/// malformed column leaves that field at its default and never fails the
/// row.
pub fn map_row(row: &Vec<Value>) -> (p: Post)
    ensures
        p@ == map_row_spec(row_model(row@)),
        p.wf(),
{
    let post_title = text_field(row, 0);
    let post_date = stamp_field(row, 1);
    let post_body = text_field(row, 2);
    Post { post_title, post_date, post_body }
}

} // verus!
