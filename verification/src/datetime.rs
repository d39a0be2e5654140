//! Calendar timestamps held as plain fields, and their fixed-pattern text
//! form `YYYY-MM-DD HH:MM:SS`.

use vstd::prelude::*;
use vstd::string::StringExecFns;

verus! {

/// A civil timestamp as plain fields: no time zone, no sub-second part.
#[derive(Clone, Copy, PartialEq, Eq, Structural, Debug)]
pub struct DateTime {
    pub year: u32,
    pub month: u32,
    pub day: u32,
    pub hour: u32,
    pub minute: u32,
    pub second: u32,
}

impl DateTime {
    /// The fields fit the calendar and the four-digit year of the rendered
    /// form.
    pub open spec fn wf(self) -> bool {
        &&& self.year <= 9999
        &&& 1 <= self.month <= 12
        &&& 1 <= self.day <= 31
        &&& self.hour <= 23
        &&& self.minute <= 59
        &&& self.second <= 59
    }

    /// The default timestamp that a malformed row falls back to: the Unix
    /// epoch.
    pub open spec fn zero_spec() -> DateTime {
        DateTime { year: 1970, month: 1, day: 1, hour: 0, minute: 0, second: 0 }
    }

    /// Builds the default timestamp.
    pub fn zero() -> (d: DateTime)
        ensures
            d == DateTime::zero_spec(),
            d.wf(),
    {
        DateTime { year: 1970, month: 1, day: 1, hour: 0, minute: 0, second: 0 }
    }

    /// Decides well-formedness at run time.
    pub fn is_wf(&self) -> (b: bool)
        ensures
            b == self.wf(),
    {
        self.year <= 9999 && 1 <= self.month && self.month <= 12 && 1 <= self.day && self.day
            <= 31 && self.hour <= 23 && self.minute <= 59 && self.second <= 59
    }

    /// Renders the timestamp in the fixed pattern `YYYY-MM-DD HH:MM:SS`.
    pub fn fmt(&self) -> (s: String)
        requires
            self.wf(),
        ensures
            s@ == fmt_spec(*self),
    {
        let mut out = String::new();
        push_pad4(&mut out, self.year);
        out.append("-");
        push_pad2(&mut out, self.month);
        out.append("-");
        push_pad2(&mut out, self.day);
        out.append(" ");
        push_pad2(&mut out, self.hour);
        out.append(":");
        push_pad2(&mut out, self.minute);
        out.append(":");
        push_pad2(&mut out, self.second);
        proof {
            reveal_strlit("-");
            reveal_strlit(" ");
            reveal_strlit(":");
            assert(out@ =~= fmt_spec(*self));
        }
        out
    }
}

/// The character for one decimal digit.
pub open spec fn digit_spec(d: int) -> char {
    if d == 0 {
        '0'
    } else if d == 1 {
        '1'
    } else if d == 2 {
        '2'
    } else if d == 3 {
        '3'
    } else if d == 4 {
        '4'
    } else if d == 5 {
        '5'
    } else if d == 6 {
        '6'
    } else if d == 7 {
        '7'
    } else if d == 8 {
        '8'
    } else {
        '9'
    }
}

/// A number under 100 as exactly two digits, zero-padded.
pub open spec fn pad2_spec(n: int) -> Seq<char> {
    seq![digit_spec(n / 10), digit_spec(n % 10)]
}

/// A number under 10000 as exactly four digits, zero-padded.
pub open spec fn pad4_spec(n: int) -> Seq<char> {
    seq![
        digit_spec(n / 1000),
        digit_spec((n / 100) % 10),
        digit_spec((n / 10) % 10),
        digit_spec(n % 10),
    ]
}

/// The fixed `YYYY-MM-DD HH:MM:SS` text form of a timestamp.
pub open spec fn fmt_spec(d: DateTime) -> Seq<char> {
    pad4_spec(d.year as int) + seq!['-'] + pad2_spec(d.month as int) + seq!['-'] + pad2_spec(
        d.day as int,
    ) + seq![' '] + pad2_spec(d.hour as int) + seq![':'] + pad2_spec(d.minute as int) + seq![':']
        + pad2_spec(d.second as int)
}

/// One decimal digit as a string slice.
fn digit_str(d: u32) -> (s: &'static str)
    requires
        d < 10,
    ensures
        s@ == seq![digit_spec(d as int)],
{
    proof {
        reveal_strlit("0");
        reveal_strlit("1");
        reveal_strlit("2");
        reveal_strlit("3");
        reveal_strlit("4");
        reveal_strlit("5");
        reveal_strlit("6");
        reveal_strlit("7");
        reveal_strlit("8");
        reveal_strlit("9");
    }
    let s: &'static str = if d == 0 {
        "0"
    } else if d == 1 {
        "1"
    } else if d == 2 {
        "2"
    } else if d == 3 {
        "3"
    } else if d == 4 {
        "4"
    } else if d == 5 {
        "5"
    } else if d == 6 {
        "6"
    } else if d == 7 {
        "7"
    } else if d == 8 {
        "8"
    } else {
        "9"
    };
    proof {
        assert(s@ =~= seq![digit_spec(d as int)]);
    }
    s
}

/// Appends a number under 100 as two zero-padded digits.
fn push_pad2(out: &mut String, n: u32)
    requires
        n < 100,
    ensures
        final(out)@ == old(out)@ + pad2_spec(n as int),
{
    out.append(digit_str(n / 10));
    out.append(digit_str(n % 10));
    proof {
        assert(out@ =~= old(out)@ + pad2_spec(n as int));
    }
}

/// Appends a number under 10000 as four zero-padded digits.
fn push_pad4(out: &mut String, n: u32)
    requires
        n < 10000,
    ensures
        final(out)@ == old(out)@ + pad4_spec(n as int),
{
    out.append(digit_str(n / 1000));
    out.append(digit_str((n / 100) % 10));
    out.append(digit_str((n / 10) % 10));
    out.append(digit_str(n % 10));
    proof {
        assert(out@ =~= old(out)@ + pad4_spec(n as int));
    }
}

} // verus!
