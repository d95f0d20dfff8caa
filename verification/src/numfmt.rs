//! Verified decimal rendering for the values the backends transmit as
//! protocol text: unsigned integers, and thousandth-valued fractions.

use vstd::prelude::*;

verus! {

/// The character for one decimal digit.
pub open spec fn digit_char(d: nat) -> char {
    if d == 0 {
        '0'
    } else if d == 1 {
        '1'
    } else if d == 2 {
        '2'
    } else if d == 3 {
        '3'
    } else if d == 4 {
        '4'
    } else if d == 5 {
        '5'
    } else if d == 6 {
        '6'
    } else if d == 7 {
        '7'
    } else if d == 8 {
        '8'
    } else {
        '9'
    }
}

/// The decimal digits of `n`, most significant first, no leading zeros
/// (a single zero for `n == 0`).
pub open spec fn dec_digits(n: nat) -> Seq<char>
    decreases n,
{
    if n < 10 {
        seq![digit_char(n)]
    } else {
        dec_digits(n / 10) + seq![digit_char(n % 10)]
    }
}

/// A thousandth-valued quantity rendered as a decimal fraction: optional
/// minus sign, integer part, point, and exactly three fraction digits.
pub open spec fn milli_chars(v: int) -> Seq<char> {
    let a = if v < 0 {
        -v
    } else {
        v
    };
    (if v < 0 {
        seq!['-']
    } else {
        Seq::<char>::empty()
    }) + dec_digits((a / 1000) as nat) + seq!['.'] + seq![
        digit_char(((a / 100) % 10) as nat),
        digit_char(((a / 10) % 10) as nat),
        digit_char((a % 10) as nat),
    ]
}

/// The character for one decimal digit.
pub fn digit_of(d: u64) -> (c: char)
    requires
        d < 10,
    ensures
        c == digit_char(d as nat),
{
    if d == 0 {
        '0'
    } else if d == 1 {
        '1'
    } else if d == 2 {
        '2'
    } else if d == 3 {
        '3'
    } else if d == 4 {
        '4'
    } else if d == 5 {
        '5'
    } else if d == 6 {
        '6'
    } else if d == 7 {
        '7'
    } else if d == 8 {
        '8'
    } else {
        '9'
    }
}

/// Append the decimal digits of `n`.
pub fn push_dec(v: &mut Vec<char>, n: u64)
    ensures
        final(v)@ == old(v)@ + dec_digits(n as nat),
    decreases n,
{
    if n < 10 {
        v.push(digit_of(n));
        proof {
            assert(v@ =~= old(v)@ + dec_digits(n as nat));
        }
    } else {
        push_dec(v, n / 10);
        v.push(digit_of(n % 10));
        proof {
            assert(v@ =~= old(v)@ + dec_digits(n as nat));
        }
    }
}

/// The decimal digits of `n` as characters.
pub fn u32_dec_chars(n: u32) -> (v: Vec<char>)
    ensures
        v@ == dec_digits(n as nat),
{
    let mut v: Vec<char> = Vec::new();
    push_dec(&mut v, n as u64);
    proof {
        assert(v@ =~= dec_digits(n as nat));
    }
    v
}

/// Render a thousandth-valued quantity as decimal-fraction characters:
/// `1250` becomes `1.250`, `-1000` becomes `-1.000`.
pub fn milli_dec_chars(v: i64) -> (r: Vec<char>)
    requires
        v != i64::MIN,
    ensures
        r@ == milli_chars(v as int),
{
    let mut out: Vec<char> = Vec::new();
    let a: u64 = if v < 0 {
        out.push('-');
        (-v) as u64
    } else {
        v as u64
    };
    push_dec(&mut out, a / 1000);
    out.push('.');
    out.push(digit_of((a / 100) % 10));
    out.push(digit_of((a / 10) % 10));
    out.push(digit_of(a % 10));
    proof {
        assert(out@ =~= milli_chars(v as int));
    }
    out
}


/// The interval of acceleration speeds the compositors' native protocols
/// accept, in thousandths: [-1.0, 1.0] is [-1000, 1000] here.
pub open spec fn spec_clamp_speed(v: i64) -> i64 {
    if v < -1000 {
        -1000i64
    } else if v > 1000 {
        1000i64
    } else {
        v
    }
}

/// Clamp an acceleration speed in thousandths to the accepted interval.
/// Out-of-range values are clamped before transmission, never rejected.
pub fn clamp_speed(v: i64) -> (r: i64)
    ensures
        r == spec_clamp_speed(v),
{
    if v < -1000 {
        -1000
    } else if v > 1000 {
        1000
    } else {
        v
    }
}


/// The exact text transmitted for an acceleration speed: the speed is
/// clamped to the accepted interval first, then rendered as a decimal
/// fraction.
pub fn clamped_speed_value(speed: i64) -> (r: String)
    ensures
        r@ == milli_chars(spec_clamp_speed(speed) as int),
{
    crate::strutil::chars_to_string(&milli_dec_chars(clamp_speed(speed)))
}


/// The text transmitted for a thousandth-valued setting: rendered as a
/// decimal fraction, with the one unrepresentable magnitude nudged up by
/// a thousandth.
pub open spec fn spec_milli_sat(v: i64) -> Seq<char> {
    if v == i64::MIN {
        milli_chars(v as int + 1)
    } else {
        milli_chars(v as int)
    }
}

/// Render a thousandth-valued setting as transmitted.
pub fn milli_value(v: i64) -> (r: String)
    ensures
        r@ == spec_milli_sat(v),
{
    let v = if v == i64::MIN {
        v + 1
    } else {
        v
    };
    crate::strutil::chars_to_string(&milli_dec_chars(v))
}

/// Render an unsigned numeric setting as transmitted.
pub fn u32_value(n: u32) -> (r: String)
    ensures
        r@ == dec_digits(n as nat),
{
    crate::strutil::chars_to_string(&u32_dec_chars(n))
}

} // verus!
