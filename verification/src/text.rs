//! Rendering of identifiers and messages.
use vstd::prelude::*;

verus! {

/// The character of a decimal digit.
pub open spec fn digit(d: nat) -> char
    recommends
        d < 10,
{
    if d == 0 {
        '0'
    } else if d == 1 {
        '1'
    } else if d == 2 {
        '2'
    } else if d == 3 {
        '3'
    } else if d == 4 {
        '4'
    } else if d == 5 {
        '5'
    } else if d == 6 {
        '6'
    } else if d == 7 {
        '7'
    } else if d == 8 {
        '8'
    } else {
        '9'
    }
}

/// The decimal numeral of a number, without leading zeros.
pub open spec fn decimal(n: nat) -> Seq<char>
    decreases n,
{
    if n < 10 {
        seq![digit(n)]
    } else {
        decimal(n / 10).push(digit(n % 10))
    }
}

/// `Name(number)`, as a tuple struct of one integer prints itself.
pub open spec fn tagged(name: Seq<char>, n: nat) -> Seq<char> {
    name + seq!['('] + decimal(n) + seq![')']
}

/// `String::push_str`: appends the slice.
#[verifier::external_body]
pub(crate) fn string_push_str(s: &mut String, t: &str)
    ensures
        final(s)@ == old(s)@ + t@,
{
    s.push_str(t)
}

/// `String::push`: appends the character.
#[verifier::external_body]
pub(crate) fn string_push(s: &mut String, c: char)
    ensures
        final(s)@ == old(s)@.push(c),
{
    s.push(c)
}

/// Computes [`digit`].
pub fn digit_char(d: usize) -> (c: char)
    requires
        d < 10,
    ensures
        c == digit(d as nat),
{
    if d == 0 {
        '0'
    } else if d == 1 {
        '1'
    } else if d == 2 {
        '2'
    } else if d == 3 {
        '3'
    } else if d == 4 {
        '4'
    } else if d == 5 {
        '5'
    } else if d == 6 {
        '6'
    } else if d == 7 {
        '7'
    } else if d == 8 {
        '8'
    } else {
        '9'
    }
}

/// Appends [`decimal`].
pub fn push_decimal(s: &mut String, n: usize)
    ensures
        final(s)@ == old(s)@ + decimal(n as nat),
    decreases n,
{
    let ghost before = s@;
    if n < 10 {
        string_push(s, digit_char(n));
        proof {
            assert(before.push(digit(n as nat)) =~= before + decimal(n as nat));
        }
    } else {
        push_decimal(s, n / 10);
        string_push(s, digit_char(n % 10));
        proof {
            assert((before + decimal((n / 10) as nat)).push(digit((n % 10) as nat)) =~= before
                + decimal(n as nat));
        }
    }
}

/// Appends [`tagged`].
pub fn push_tagged(s: &mut String, name: &str, n: usize)
    ensures
        final(s)@ == old(s)@ + tagged(name@, n as nat),
{
    let ghost before = s@;
    string_push_str(s, name);
    string_push(s, '(');
    push_decimal(s, n);
    string_push(s, ')');
    proof {
        assert(s@ =~= before + tagged(name@, n as nat));
    }
}

} // verus!
