//! Text helpers for building error messages: appending a single character to a
//! `String`, and rendering an unsigned number in decimal.

use vstd::prelude::*;

verus! {

/// Relies on `String::push`: appends exactly the given character.
#[verifier::external_body]
pub(crate) fn push_char(s: &mut String, c: char)
    ensures
        final(s)@ == old(s)@ + seq![c],
{
    s.push(c);
}

/// The character for a single decimal digit.
pub open spec fn digit_char(d: nat) -> char {
    if d == 0 {
        '0'
    } else if d == 1 {
        '1'
    } else if d == 2 {
        '2'
    } else if d == 3 {
        '3'
    } else if d == 4 {
        '4'
    } else if d == 5 {
        '5'
    } else if d == 6 {
        '6'
    } else if d == 7 {
        '7'
    } else if d == 8 {
        '8'
    } else {
        '9'
    }
}

/// The decimal rendering of `n`: most significant digit first, no leading
/// zeros (except for `n == 0`, which renders as "0").
pub open spec fn dec_digits(n: nat) -> Seq<char>
    decreases n,
{
    if n < 10 {
        seq![digit_char(n)]
    } else {
        dec_digits(n / 10).push(digit_char(n % 10))
    }
}

/// A decimal rendering is never empty.
pub proof fn lemma_dec_digits_nonempty(n: nat)
    ensures
        dec_digits(n).len() >= 1,
    decreases n,
{
    if n >= 10 {
        lemma_dec_digits_nonempty(n / 10);
    }
}

fn digit_char_exec(d: usize) -> (c: char)
    requires
        d < 10,
    ensures
        c == digit_char(d as nat),
{
    match d {
        0 => '0',
        1 => '1',
        2 => '2',
        3 => '3',
        4 => '4',
        5 => '5',
        6 => '6',
        7 => '7',
        8 => '8',
        _ => '9',
    }
}

/// Renders `n` in decimal, most significant digit first.
pub fn dec_string(n: usize) -> (r: String)
    ensures
        r@ == dec_digits(n as nat),
    decreases n,
{
    if n < 10 {
        let mut s = String::new();
        push_char(&mut s, digit_char_exec(n));
        proof {
            assert(s@ =~= dec_digits(n as nat));
        }
        s
    } else {
        let mut s = dec_string(n / 10);
        push_char(&mut s, digit_char_exec(n % 10));
        proof {
            assert(s@ =~= dec_digits(n as nat));
        }
        s
    }
}

} // verus!
