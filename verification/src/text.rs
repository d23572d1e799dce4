//! Decimal rendering of integers and the glue that turns verified
//! character sequences into `String` values for messages.

use vstd::prelude::*;

verus! {

/// The character for a single decimal digit.
pub open spec fn digit_char(d: int) -> char {
    if d == 0 {
        '0'
    } else if d == 1 {
        '1'
    } else if d == 2 {
        '2'
    } else if d == 3 {
        '3'
    } else if d == 4 {
        '4'
    } else if d == 5 {
        '5'
    } else if d == 6 {
        '6'
    } else if d == 7 {
        '7'
    } else if d == 8 {
        '8'
    } else {
        '9'
    }
}

/// The decimal digits of a natural number, most significant first, with
/// no leading zero except for the number zero itself.
pub open spec fn dec_digits(n: nat) -> Seq<char>
    decreases n,
{
    if n < 10 {
        seq![digit_char(n as int)]
    } else {
        dec_digits(n / 10).push(digit_char((n % 10) as int))
    }
}

/// The decimal rendering of an integer: a leading '-' when negative,
/// then the digits of its magnitude.
pub open spec fn dec_str(v: int) -> Seq<char> {
    if v < 0 {
        seq!['-'] + dec_digits((-v) as nat)
    } else {
        dec_digits(v as nat)
    }
}

fn digit_to_char(d: u64) -> (c: char)
    requires
        d < 10,
    ensures
        c == digit_char(d as int),
{
    if d == 0 {
        '0'
    } else if d == 1 {
        '1'
    } else if d == 2 {
        '2'
    } else if d == 3 {
        '3'
    } else if d == 4 {
        '4'
    } else if d == 5 {
        '5'
    } else if d == 6 {
        '6'
    } else if d == 7 {
        '7'
    } else if d == 8 {
        '8'
    } else {
        '9'
    }
}

fn push_digits(out: &mut Vec<char>, n: u64)
    ensures
        final(out)@ == old(out)@ + dec_digits(n as nat),
    decreases n,
{
    if n >= 10 {
        push_digits(out, n / 10);
    }
    let c = digit_to_char(n % 10);
    out.push(c);
    proof {
        assert(out@ =~= old(out)@ + dec_digits(n as nat));
    }
}

/// Appends the decimal rendering of `v` to `out`.
fn push_dec(out: &mut Vec<char>, v: i64)
    ensures
        final(out)@ == old(out)@ + dec_str(v as int),
{
    if v < 0 {
        out.push('-');
        let n = (-(v as i128)) as u64;
        push_digits(out, n);
        proof {
            assert(out@ =~= old(out)@ + dec_str(v as int));
        }
    } else {
        push_digits(out, v as u64);
    }
}

/// Relies on `Iterator::collect` building a `String` from `char`s: the
/// string holds exactly the characters of `v`, in order.
#[verifier::external_body]
fn chars_to_string(v: &Vec<char>) -> (s: String)
    ensures
        s@ == v@,
{
    v.iter().collect()
}

/// Relies on `format!` with three `str` arguments: the result is their
/// concatenation, in order.
#[verifier::external_body]
pub(crate) fn concat3(a: &str, b: &str, c: &str) -> (s: String)
    ensures
        s@ == a@ + b@ + c@,
{
    format!("{a}{b}{c}")
}

/// The decimal rendering of `v` as a string.
pub fn dec_string(v: i64) -> (s: String)
    ensures
        s@ == dec_str(v as int),
{
    let mut chars: Vec<char> = Vec::new();
    push_dec(&mut chars, v);
    chars_to_string(&chars)
}

} // verus!
