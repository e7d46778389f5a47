//! Pieces of the messages that errors carry.

use vstd::prelude::*;
use crate::duration::{duration_debug, Duration};

verus! {

/// The character of a decimal digit.
pub open spec fn digit(n: nat) -> char {
    if n == 0 {
        '0'
    } else if n == 1 {
        '1'
    } else if n == 2 {
        '2'
    } else if n == 3 {
        '3'
    } else if n == 4 {
        '4'
    } else if n == 5 {
        '5'
    } else if n == 6 {
        '6'
    } else if n == 7 {
        '7'
    } else if n == 8 {
        '8'
    } else {
        '9'
    }
}

/// A number in decimal notation, without leading zeros.
pub open spec fn decimal(n: nat) -> Seq<char>
    decreases n,
{
    if n < 10 {
        seq![digit(n)]
    } else {
        decimal(n / 10).push(digit(n % 10))
    }
}

/// The decimal digit `n` as a string.
fn digit_text(n: u64) -> (text: &'static str)
    requires
        n < 10,
    ensures
        text@ == seq![digit(n as nat)],
{
    proof {
        reveal_strlit("0");
        reveal_strlit("1");
        reveal_strlit("2");
        reveal_strlit("3");
        reveal_strlit("4");
        reveal_strlit("5");
        reveal_strlit("6");
        reveal_strlit("7");
        reveal_strlit("8");
        reveal_strlit("9");
    }
    let text: &'static str = match n {
        0 => "0",
        1 => "1",
        2 => "2",
        3 => "3",
        4 => "4",
        5 => "5",
        6 => "6",
        7 => "7",
        8 => "8",
        _ => "9",
    };
    assert(text@ =~= seq![digit(n as nat)]);
    text
}

/// Writes `n` in decimal notation behind `out`.
pub fn push_decimal(out: &mut String, n: u64)
    ensures
        final(out)@ == old(out)@ + decimal(n as nat),
    decreases n,
{
    if n < 10 {
        out.append(digit_text(n));
    } else {
        push_decimal(out, n / 10);
        out.append(digit_text(n % 10));
        assert(out@ =~= old(out)@ + decimal(n as nat));
    }
}

/// How an optional span prints: `None`, or the span wrapped in `Some(..)`.
pub open spec fn optional_duration_debug(span: Option<Duration>) -> Seq<char> {
    match span {
        Some(d) => "Some("@ + duration_debug(d@.0, d@.1) + ")"@,
        None => "None"@,
    }
}

/// Writes an optional span behind `out`, as `{:?}` prints it.
pub fn push_optional_duration(out: &mut String, span: Option<Duration>)
    ensures
        final(out)@ == old(out)@ + optional_duration_debug(span),
{
    match span {
        Some(d) => {
            out.append("Some(");
            out.append(d.debug_text().as_str());
            out.append(")");
            assert(out@ =~= old(out)@ + optional_duration_debug(span));
        },
        None => {
            out.append("None");
        },
    }
}

} // verus!
