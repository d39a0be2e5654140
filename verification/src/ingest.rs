//! The ingestion path: one fresh record per invocation, carrying a random
//! surrogate key, the clock timestamp, and the given title and body, and the
//! insert statement for it. Every value is carried as a quoted SQL literal
//! with its quotes doubled, so no input can break out of the statement.

use vstd::prelude::*;
use vstd::string::{StrSliceExecFns, StringExecFns};
use chrono::{Datelike, Timelike};
use crate::datetime::{DateTime, fmt_spec};

verus! {

/// A record about to be inserted: the surrogate key and timestamp exist
/// only in the store schema and never reach the rendering layer.
pub struct NewPost {
    pub post_id: String,
    pub post_date: DateTime,
    pub post_title: String,
    pub post_body: String,
}

/// The mathematical model of a fresh record.
pub ghost struct NewPostV {
    pub id: Seq<char>,
    pub date: DateTime,
    pub title: Seq<char>,
    pub body: Seq<char>,
}

impl View for NewPost {
    type V = NewPostV;

    open spec fn view(&self) -> NewPostV {
        NewPostV {
            id: self.post_id@,
            date: self.post_date,
            title: self.post_title@,
            body: self.post_body@,
        }
    }
}

/// Relies on `uuid::Uuid::new_v4` and its text form: a fresh random
/// identifier, rendered as 36 lowercase hexadecimal digits and dashes.
/// The value itself is random, so nothing more is assumed of it.
#[verifier::external_body]
fn fresh_uuid() -> (r: String)
    ensures
        r@.len() == 36,
        forall|i: int|
            0 <= i < r@.len() ==> (r@[i] == '-' || ('0' <= r@[i] <= '9') || ('a' <= r@[i]
                <= 'f')),
{
    uuid::Uuid::new_v4().to_string()
}

/// Relies on `chrono::Local::now` and its `Datelike`/`Timelike` accessors:
/// the civil clock reading as year, month, day, hour, minute, second, with
/// every component but the year in its calendar range. The reading depends
/// on the clock, so nothing is assumed of which moment comes back.
#[verifier::external_body]
fn clock_now_parts() -> (t: (i32, u32, u32, u32, u32, u32))
    ensures
        1 <= t.1 <= 12,
        1 <= t.2 <= 31,
        t.3 <= 23,
        t.4 <= 59,
        t.5 <= 59,
{
    let now = chrono::Local::now();
    (now.year(), now.month(), now.day(), now.hour(), now.minute(), now.second())
}

/// The clock reading as a library timestamp, well formed whatever the clock
/// returned: a year outside the four-digit range falls back to the default
/// timestamp.
pub fn now_datetime() -> (d: DateTime)
    ensures
        d.wf(),
{
    let (year, month, day, hour, minute, second) = clock_now_parts();
    if 0 <= year && year <= 9999 {
        DateTime { year: year as u32, month, day, hour, minute, second }
    } else {
        DateTime::zero()
    }
}

/// A text with every single quote doubled, the SQL escape for string
/// literals.
pub open spec fn sql_escape_spec(s: Seq<char>) -> Seq<char>
    decreases s.len(),
{
    if s.len() == 0 {
        Seq::empty()
    } else {
        sql_escape_spec(s.drop_last()) + (if s.last() == '\'' {
            seq!['\'', '\'']
        } else {
            seq![s.last()]
        })
    }
}

/// A text as one SQL string literal: wrapped in single quotes, every inner
/// quote doubled.
pub open spec fn sql_quote_spec(s: Seq<char>) -> Seq<char> {
    seq!['\''] + sql_escape_spec(s) + seq!['\'']
}

/// Quotes a value as a SQL string literal, so that the value can never
/// terminate the literal early.
pub fn sql_quote(s: &str) -> (r: String)
    ensures
        r@ == sql_quote_spec(s@),
{
    let n = s.unicode_len();
    let mut out = String::new();
    out.append("'");
    proof {
        reveal_strlit("'");
    }
    for i in 0..n
        invariant
            n == s@.len(),
            out@ == seq!['\''] + sql_escape_spec(s@.take(i as int)),
    {
        let c = s.get_char(i);
        if c == '\'' {
            out.append("''");
        } else {
            out.append(s.substring_char(i, i + 1));
        }
        proof {
            reveal_strlit("''");
            assert(s@.take(i as int + 1).drop_last() =~= s@.take(i as int));
            assert(out@ =~= seq!['\''] + sql_escape_spec(s@.take(i as int + 1)));
        }
    }
    out.append("'");
    proof {
        reveal_strlit("'");
        assert(s@.take(n as int) =~= s@);
        assert(out@ =~= sql_quote_spec(s@));
    }
    out
}

/// The insert statement that carries one fresh record, every value a quoted
/// SQL literal.
pub open spec fn insert_statement_spec(p: NewPostV) -> Seq<char> {
    "insert into myposts (post_id, post_date, post_title, post_body) values ("@ + sql_quote_spec(
        p.id,
    ) + ", "@ + sql_quote_spec(fmt_spec(p.date)) + ", "@ + sql_quote_spec(p.title) + ", "@
        + sql_quote_spec(p.body) + ")"@
}

/// Builds the insert statement for a fresh record.
pub fn insert_statement(p: &NewPost) -> (sql: String)
    requires
        p.post_date.wf(),
    ensures
        sql@ == insert_statement_spec(p@),
{
    let mut out = String::new();
    out.append("insert into myposts (post_id, post_date, post_title, post_body) values (");
    let id = sql_quote(p.post_id.as_str());
    out.append(id.as_str());
    out.append(", ");
    let date_text = p.post_date.fmt();
    let date = sql_quote(date_text.as_str());
    out.append(date.as_str());
    out.append(", ");
    let title = sql_quote(p.post_title.as_str());
    out.append(title.as_str());
    out.append(", ");
    let body = sql_quote(p.post_body.as_str());
    out.append(body.as_str());
    out.append(")");
    proof {
        assert(out@ =~= insert_statement_spec(p@));
    }
    out
}

/// One ingestion: a fresh record for the given title and body, and the
/// statement that inserts it. The key and timestamp come from the
/// identifier generator and the clock, so the contract states what holds of
/// every such outcome.
pub fn ingest(title: &str, body: &str) -> (r: (NewPost, String))
    ensures
        r.0.post_title@ == title@,
        r.0.post_body@ == body@,
        r.0.post_date.wf(),
        r.0.post_id@.len() == 36,
        r.1@ == insert_statement_spec(r.0@),
{
    let record = NewPost {
        post_id: fresh_uuid(),
        post_date: now_datetime(),
        post_title: title.to_owned(),
        post_body: body.to_owned(),
    };
    let sql = insert_statement(&record);
    (record, sql)
}

} // verus!
