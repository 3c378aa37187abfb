//! Writing integers as decimal text, for error messages.
use vstd::prelude::*;

verus! {

/// The text of decimal digit `d`.
pub open spec fn spec_digit(d: int) -> Seq<char> {
    if d == 0 {
        "0"@
    } else if d == 1 {
        "1"@
    } else if d == 2 {
        "2"@
    } else if d == 3 {
        "3"@
    } else if d == 4 {
        "4"@
    } else if d == 5 {
        "5"@
    } else if d == 6 {
        "6"@
    } else if d == 7 {
        "7"@
    } else if d == 8 {
        "8"@
    } else {
        "9"@
    }
}

/// The decimal text of `n`, without leading zeros.
pub open spec fn spec_decimal(n: nat) -> Seq<char>
    decreases n,
{
    if n < 10 {
        spec_digit(n as int)
    } else {
        spec_decimal(n / 10) + spec_digit((n % 10) as int)
    }
}

/// The decimal text of a signed value: a minus sign before the digits of a
/// negative value.
pub open spec fn spec_signed_decimal(v: int) -> Seq<char> {
    if v < 0 {
        "-"@ + spec_decimal((-v) as nat)
    } else {
        spec_decimal(v as nat)
    }
}

fn digit_text(d: u64) -> (r: &'static str)
    requires
        d < 10,
    ensures
        r@ == spec_digit(d as int),
{
    if d == 0 {
        "0"
    } else if d == 1 {
        "1"
    } else if d == 2 {
        "2"
    } else if d == 3 {
        "3"
    } else if d == 4 {
        "4"
    } else if d == 5 {
        "5"
    } else if d == 6 {
        "6"
    } else if d == 7 {
        "7"
    } else if d == 8 {
        "8"
    } else {
        "9"
    }
}

/// Appends the decimal text of `n` to `text`.
pub fn push_decimal(text: &mut String, n: u64)
    ensures
        final(text)@ == old(text)@ + spec_decimal(n as nat),
    decreases n,
{
    let ghost start = text@;
    if n >= 10 {
        push_decimal(text, n / 10);
    }
    text.append(digit_text(n % 10));
    proof {
        if n >= 10 {
            assert(text@ =~= start + (spec_decimal((n / 10) as nat) + spec_digit((n % 10) as int)));
        } else {
            assert(n % 10 == n);
        }
    }
}

/// Appends the decimal text of a signed value to `text`.
pub fn push_signed_decimal(text: &mut String, v: i64)
    ensures
        final(text)@ == old(text)@ + spec_signed_decimal(v as int),
{
    let ghost start = text@;
    if v < 0 {
        text.append("-");
        let magnitude: u64 = if v == i64::MIN {
            0x8000_0000_0000_0000
        } else {
            (-v) as u64
        };
        push_decimal(text, magnitude);
        proof {
            assert(text@ =~= start + ("-"@ + spec_decimal((-v) as nat)));
        }
    } else {
        push_decimal(text, v as u64);
    }
}

} // verus!
