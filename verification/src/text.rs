//! Text building blocks: decimal rendering and joining of string pieces.

use vstd::prelude::*;

verus! {

/// The character that stands for the decimal digit `d`.
pub open spec fn spec_digit_char(d: nat) -> char
    recommends
        d < 10,
{
    if d == 0 {
        '0'
    } else if d == 1 {
        '1'
    } else if d == 2 {
        '2'
    } else if d == 3 {
        '3'
    } else if d == 4 {
        '4'
    } else if d == 5 {
        '5'
    } else if d == 6 {
        '6'
    } else if d == 7 {
        '7'
    } else if d == 8 {
        '8'
    } else {
        '9'
    }
}

/// The decimal numeral of `n`: no sign, no padding, `"0"` for zero.
pub open spec fn spec_decimal(n: nat) -> Seq<char>
    decreases n,
{
    if n < 10 {
        seq![spec_digit_char(n)]
    } else {
        spec_decimal(n / 10).push(spec_digit_char(n % 10))
    }
}

/// The one-character text of a decimal digit.
fn digit_text(d: u64) -> (r: &'static str)
    requires
        d < 10,
    ensures
        r@ == seq![spec_digit_char(d as nat)],
{
    proof {
        reveal_strlit("0");
        reveal_strlit("1");
        reveal_strlit("2");
        reveal_strlit("3");
        reveal_strlit("4");
        reveal_strlit("5");
        reveal_strlit("6");
        reveal_strlit("7");
        reveal_strlit("8");
        reveal_strlit("9");
    }
    let r = if d == 0 {
        "0"
    } else if d == 1 {
        "1"
    } else if d == 2 {
        "2"
    } else if d == 3 {
        "3"
    } else if d == 4 {
        "4"
    } else if d == 5 {
        "5"
    } else if d == 6 {
        "6"
    } else if d == 7 {
        "7"
    } else if d == 8 {
        "8"
    } else {
        "9"
    };
    assert(r@ =~= seq![spec_digit_char(d as nat)]);
    r
}

/// Renders `n` as a decimal numeral.
pub fn render_u64(n: u64) -> (r: String)
    ensures
        r@ == spec_decimal(n as nat),
    decreases n,
{
    if n < 10 {
        String::from_str(digit_text(n))
    } else {
        let mut head = render_u64(n / 10);
        head.append(digit_text(n % 10));
        assert(head@ =~= spec_decimal(n as nat));
        head
    }
}

/// A line that reports an error: the message behind `ERROR: `.
pub open spec fn spec_error_line(msg: Seq<char>) -> Seq<char> {
    "ERROR: "@ + msg
}

/// Builds the line that reports an error.
pub fn error_line(msg: &str) -> (r: String)
    ensures
        r@ == spec_error_line(msg@),
{
    let mut r = String::from_str("ERROR: ");
    r.append(msg);
    r
}

/// A line that gives a warning: the message behind `WARN: `.
pub open spec fn spec_warn_line(msg: Seq<char>) -> Seq<char> {
    "WARN: "@ + msg
}

/// Builds the line that gives a warning.
pub fn warn_line(msg: &str) -> (r: String)
    ensures
        r@ == spec_warn_line(msg@),
{
    let mut r = String::from_str("WARN: ");
    r.append(msg);
    r
}

} // verus!
