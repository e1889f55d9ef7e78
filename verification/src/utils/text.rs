//! Decimal text for integers and fixed-point values.
//!
//! Labels are assembled piece by piece in a `String`; each helper appends one
//! piece and says exactly which characters it appended.

use vstd::prelude::*;
use vstd::string::StringExecFns;

verus! {

/// The character of a decimal digit.
pub open spec fn digit_char(d: int) -> char {
    if d == 0 {
        '0'
    } else if d == 1 {
        '1'
    } else if d == 2 {
        '2'
    } else if d == 3 {
        '3'
    } else if d == 4 {
        '4'
    } else if d == 5 {
        '5'
    } else if d == 6 {
        '6'
    } else if d == 7 {
        '7'
    } else if d == 8 {
        '8'
    } else {
        '9'
    }
}

/// The decimal digits of a natural number, most significant first, without
/// leading zeros.
pub open spec fn decimal_text(n: nat) -> Seq<char>
    decreases n,
{
    if n < 10 {
        seq![digit_char(n as int)]
    } else {
        decimal_text(n / 10).push(digit_char((n % 10) as int))
    }
}

/// The decimal text of an integer: a minus sign before the digits of a
/// negative number.
pub open spec fn int_text(n: int) -> Seq<char> {
    if n < 0 {
        seq!['-'] + decimal_text((-n) as nat)
    } else {
        decimal_text(n as nat)
    }
}

/// The decimal text of an integer, filled with a leading zero to two
/// characters. The minus sign of a negative number counts as a character.
pub open spec fn padded_text(n: int) -> Seq<char> {
    if 0 <= n < 10 {
        seq!['0'] + decimal_text(n as nat)
    } else {
        int_text(n)
    }
}

/// Tenths nearest to a count of millionths; a half rounds away from zero.
pub open spec fn nearest_tenths(micro: int) -> int {
    if micro >= 0 {
        (micro + 50_000) / 100_000
    } else {
        -((-micro + 50_000) / 100_000)
    }
}

/// A fixed-point value as text with one decimal place.
pub open spec fn tenths_text(micro: int) -> Seq<char> {
    let tenths = nearest_tenths(micro);
    let magnitude = if tenths < 0 { -tenths } else { tenths };
    let digits = decimal_text((magnitude / 10) as nat) + seq!['.'] + seq![
        digit_char(magnitude % 10),
    ];
    if micro < 0 {
        seq!['-'] + digits
    } else {
        digits
    }
}

/// A fixed-point value as text with one decimal place and at least two
/// digits before the point.
pub open spec fn padded_tenths_text(micro: int) -> Seq<char> {
    let tenths = nearest_tenths(micro);
    if 0 <= micro && tenths < 100 {
        seq!['0'] + tenths_text(micro)
    } else {
        tenths_text(micro)
    }
}

/// The text of one decimal digit.
fn digit_str(d: u64) -> (r: &'static str)
    requires
        d < 10,
    ensures
        r@ == seq![digit_char(d as int)],
{
    proof {
        reveal_strlit("0");
        reveal_strlit("1");
        reveal_strlit("2");
        reveal_strlit("3");
        reveal_strlit("4");
        reveal_strlit("5");
        reveal_strlit("6");
        reveal_strlit("7");
        reveal_strlit("8");
        reveal_strlit("9");
    }
    let r = if d == 0 {
        "0"
    } else if d == 1 {
        "1"
    } else if d == 2 {
        "2"
    } else if d == 3 {
        "3"
    } else if d == 4 {
        "4"
    } else if d == 5 {
        "5"
    } else if d == 6 {
        "6"
    } else if d == 7 {
        "7"
    } else if d == 8 {
        "8"
    } else {
        "9"
    };
    assert(r@ =~= seq![digit_char(d as int)]);
    r
}

/// Appends the decimal digits of `n`.
pub fn push_decimal(out: &mut String, n: u64)
    ensures
        final(out)@ == old(out)@ + decimal_text(n as nat),
    decreases n,
{
    if n >= 10 {
        push_decimal(out, n / 10);
    }
    out.append(digit_str(n % 10));
    assert(out@ =~= old(out)@ + decimal_text(n as nat));
}

/// Appends the decimal text of `n`, with its sign.
pub fn push_int(out: &mut String, n: i64)
    ensures
        final(out)@ == old(out)@ + int_text(n as int),
{
    if n < 0 {
        proof {
            reveal_strlit("-");
        }
        out.append("-");
        let magnitude: u64 = if n == i64::MIN {
            0x8000_0000_0000_0000
        } else {
            (-n) as u64
        };
        push_decimal(out, magnitude);
        assert(out@ =~= old(out)@ + int_text(n as int));
    } else {
        push_decimal(out, n as u64);
    }
}

/// Appends the decimal text of `n`, zero-filled to two characters.
pub fn push_padded(out: &mut String, n: i64)
    ensures
        final(out)@ == old(out)@ + padded_text(n as int),
{
    if 0 <= n && n < 10 {
        proof {
            reveal_strlit("0");
        }
        out.append("0");
        push_decimal(out, n as u64);
        assert(out@ =~= old(out)@ + padded_text(n as int));
    } else {
        push_int(out, n);
    }
}

/// Appends a fixed-point value with one decimal place.
pub fn push_tenths(out: &mut String, micro: i64)
    ensures
        final(out)@ == old(out)@ + tenths_text(micro as int),
{
    let wide: i128 = micro as i128;
    let magnitude: u64 = if wide >= 0 {
        ((wide + 50_000) / 100_000) as u64
    } else {
        ((-wide + 50_000) / 100_000) as u64
    };
    proof {
        reveal_strlit("-");
        reveal_strlit(".");
    }
    if micro < 0 {
        out.append("-");
    }
    push_decimal(out, magnitude / 10);
    out.append(".");
    out.append(digit_str(magnitude % 10));
    assert(out@ =~= old(out)@ + tenths_text(micro as int));
}

/// Appends a fixed-point value with one decimal place and at least two
/// digits before the point.
pub fn push_padded_tenths(out: &mut String, micro: i64)
    ensures
        final(out)@ == old(out)@ + padded_tenths_text(micro as int),
{
    if 0 <= micro && micro < 9_950_000 {
        proof {
            reveal_strlit("0");
        }
        out.append("0");
        push_tenths(out, micro);
        assert(out@ =~= old(out)@ + padded_tenths_text(micro as int));
    } else {
        push_tenths(out, micro);
    }
}

} // verus!
