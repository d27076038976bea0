//! The pieces of text that the printed lines are made of.

use vstd::prelude::*;
use vstd::string::*;

verus! {

/// The character that writes the last decimal digit of `n`.
pub open spec fn digit_char(n: nat) -> char {
    let d = n % 10;
    if d == 0 {
        '0'
    } else if d == 1 {
        '1'
    } else if d == 2 {
        '2'
    } else if d == 3 {
        '3'
    } else if d == 4 {
        '4'
    } else if d == 5 {
        '5'
    } else if d == 6 {
        '6'
    } else if d == 7 {
        '7'
    } else if d == 8 {
        '8'
    } else {
        '9'
    }
}

/// The decimal numeral of `n`: most significant digit first, no leading
/// zero, and the single digit `0` for zero.
pub open spec fn decimal(n: nat) -> Seq<char>
    decreases n,
{
    if n < 10 {
        seq![digit_char(n)]
    } else {
        decimal(n / 10).push(digit_char(n))
    }
}

/// How the standard library's `Debug` formatting writes a string: between
/// double quotes, with the characters that need it escaped.
pub uninterp spec fn quoted(s: Seq<char>) -> Seq<char>;

/// How `Debug` formatting writes an optional string: `None`, or the quoted
/// string inside `Some(` and `)`.
pub open spec fn optional_debug(name: Option<Seq<char>>) -> Seq<char> {
    match name {
        None => "None"@,
        Some(s) => "Some("@ + quoted(s) + ")"@,
    }
}

fn digit_text(n: usize) -> (text: &'static str)
    ensures
        text@ == seq![digit_char(n as nat)],
{
    let d: usize = n % 10;
    proof {
        reveal_strlit("0");
        reveal_strlit("1");
        reveal_strlit("2");
        reveal_strlit("3");
        reveal_strlit("4");
        reveal_strlit("5");
        reveal_strlit("6");
        reveal_strlit("7");
        reveal_strlit("8");
        reveal_strlit("9");
    }
    let text = if d == 0 {
        "0"
    } else if d == 1 {
        "1"
    } else if d == 2 {
        "2"
    } else if d == 3 {
        "3"
    } else if d == 4 {
        "4"
    } else if d == 5 {
        "5"
    } else if d == 6 {
        "6"
    } else if d == 7 {
        "7"
    } else if d == 8 {
        "8"
    } else {
        "9"
    };
    assert(text@ =~= seq![digit_char(n as nat)]);
    text
}

/// Writes `n` in decimal.
pub fn decimal_text(n: usize) -> (text: String)
    ensures
        text@ == decimal(n as nat),
    decreases n,
{
    if n < 10 {
        String::from_str(digit_text(n))
    } else {
        let mut text = decimal_text(n / 10);
        text.append(digit_text(n));
        assert(text@ =~= decimal((n / 10) as nat).push(digit_char(n as nat)));
        text
    }
}

/// Formats a string with `{:?}`, that is with the standard library's
/// `<str as Debug>::fmt`. Not proved: that what comes back is [`quoted`] of
/// the argument, which claims no more than that the result depends on the
/// characters of the string alone.
#[verifier::external_body]
fn quoted_text(s: &str) -> (text: String)
    ensures
        text@ == quoted(s@),
{
    format!("{:?}", s)
}

/// Completes the `Debug` form of an optional string, given the quoted form
/// of the string where there is one.
pub fn optional_text(quoted_name: Option<String>) -> (text: String)
    ensures
        text@ == match quoted_name {
            None => "None"@,
            Some(q) => "Some("@ + q@ + ")"@,
        },
{
    match quoted_name {
        None => String::from_str("None"),
        Some(q) => {
            let mut text = String::from_str("Some(");
            text.append(q.as_str());
            text.append(")");
            text
        },
    }
}

/// Writes an optional string as `Debug` formatting does.
pub fn debug_text(name: &Option<String>) -> (text: String)
    ensures
        text@ == optional_debug(name.deep_view()),
{
    match name {
        None => optional_text(None),
        Some(s) => optional_text(Some(quoted_text(s.as_str()))),
    }
}

} // verus!
