//! Text rendering used in error messages: decimal numbers and the `Debug` forms of
//! optional values.
use vstd::prelude::*;

verus! {

/// The ASCII digit for `d` (below ten).
pub open spec fn digit_char(d: nat) -> char {
    (48 + d) as char
}

/// Decimal representation of `n`, most significant digit first, without leading zeros.
pub open spec fn decimal(n: nat) -> Seq<char>
    decreases n,
{
    if n < 10 {
        seq![digit_char(n)]
    } else {
        decimal(n / 10) + seq![digit_char(n % 10)]
    }
}

/// Text that `{:?}` gives for a string slice: the characters in double quotes, with
/// quotes, backslashes and non-printable characters escaped.
pub uninterp spec fn str_debug_text(s: Seq<char>) -> Seq<char>;

/// `{:?}` of an optional string: `None`, or `Some(` and the quoted string and `)`.
pub open spec fn optional_str_debug_text(s: Option<Seq<char>>) -> Seq<char> {
    match s {
        None => "None"@,
        Some(t) => "Some("@ + str_debug_text(t) + ")"@,
    }
}

/// `{:?}` of an optional number: `None`, or `Some(` and the decimal digits and `)`.
pub open spec fn optional_number_debug_text(n: Option<nat>) -> Seq<char> {
    match n {
        None => "None"@,
        Some(k) => "Some("@ + decimal(k) + ")"@,
    }
}

/// The view of an optional string.
pub open spec fn optional_text(s: Option<String>) -> Option<Seq<char>> {
    match s {
        None => None,
        Some(t) => Some(t@),
    }
}

/// The `Debug` rendering of a string slice, as `format!("{:?}", s)` produces it
/// (std's `<str as Debug>::fmt`). Stated: the result is `str_debug_text` of the
/// characters, nothing more.
#[verifier::external_body]
fn str_debug(s: &str) -> (res: String)
    ensures
        res@ == str_debug_text(s@),
{
    format!("{:?}", s)
}

/// Append the digit `d` to `out`.
fn push_digit(out: &mut String, d: u64)
    requires
        d < 10,
    ensures
        final(out)@ == old(out)@ + seq![digit_char(d as nat)],
{
    let s: &str = if d == 0 {
        proof { reveal_strlit("0"); }
        "0"
    } else if d == 1 {
        proof { reveal_strlit("1"); }
        "1"
    } else if d == 2 {
        proof { reveal_strlit("2"); }
        "2"
    } else if d == 3 {
        proof { reveal_strlit("3"); }
        "3"
    } else if d == 4 {
        proof { reveal_strlit("4"); }
        "4"
    } else if d == 5 {
        proof { reveal_strlit("5"); }
        "5"
    } else if d == 6 {
        proof { reveal_strlit("6"); }
        "6"
    } else if d == 7 {
        proof { reveal_strlit("7"); }
        "7"
    } else if d == 8 {
        proof { reveal_strlit("8"); }
        "8"
    } else {
        proof { reveal_strlit("9"); }
        "9"
    };
    out.append(s);
}

/// Append the decimal digits of `n` to `out`.
pub fn push_decimal(out: &mut String, n: u64)
    ensures
        final(out)@ == old(out)@ + decimal(n as nat),
    decreases n,
{
    if n >= 10 {
        push_decimal(out, n / 10);
    }
    push_digit(out, n % 10);
    assert(final(out)@ =~= old(out)@ + decimal(n as nat));
}

/// Append `{:?}` of an optional string to `out`.
pub fn push_optional_str_debug(out: &mut String, s: &Option<String>)
    ensures
        final(out)@ == old(out)@ + optional_str_debug_text(optional_text(*s)),
{
    match s {
        None => {
            out.append("None");
        },
        Some(t) => {
            out.append("Some(");
            let quoted = str_debug(t.as_str());
            out.append(quoted.as_str());
            out.append(")");
            assert(final(out)@ =~= old(out)@ + optional_str_debug_text(optional_text(*s)));
        },
    }
}

/// Append `{:?}` of an optional number to `out`.
pub fn push_optional_number_debug(out: &mut String, n: Option<u16>)
    ensures
        final(out)@ == old(out)@ + optional_number_debug_text(
            match n {
                None => None,
                Some(k) => Some(k as nat),
            },
        ),
{
    match n {
        None => {
            out.append("None");
        },
        Some(k) => {
            out.append("Some(");
            push_decimal(out, k as u64);
            out.append(")");
            assert(final(out)@ =~= old(out)@ + "Some("@ + decimal(k as nat) + ")"@);
        },
    }
}

} // verus!
