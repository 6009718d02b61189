//! Small verified text helpers: rendering an unsigned number in decimal
//! and comparing an owned string against a literal.

use vstd::prelude::*;

verus! {

/// The decimal digit character for `d`.
pub open spec fn spec_digit(d: nat) -> Seq<char>
    recommends
        d < 10,
{
    if d == 0 {
        "0"@
    } else if d == 1 {
        "1"@
    } else if d == 2 {
        "2"@
    } else if d == 3 {
        "3"@
    } else if d == 4 {
        "4"@
    } else if d == 5 {
        "5"@
    } else if d == 6 {
        "6"@
    } else if d == 7 {
        "7"@
    } else if d == 8 {
        "8"@
    } else {
        "9"@
    }
}

/// The decimal rendering of `n`, most significant digit first.
pub open spec fn spec_usize_str(n: nat) -> Seq<char>
    decreases n,
{
    if n < 10 {
        spec_digit(n)
    } else {
        spec_usize_str(n / 10) + spec_digit(n % 10)
    }
}

fn digit_str(d: usize) -> (r: &'static str)
    requires
        d < 10,
    ensures
        r@ == spec_digit(d as nat),
{
    if d == 0 {
        "0"
    } else if d == 1 {
        "1"
    } else if d == 2 {
        "2"
    } else if d == 3 {
        "3"
    } else if d == 4 {
        "4"
    } else if d == 5 {
        "5"
    } else if d == 6 {
        "6"
    } else if d == 7 {
        "7"
    } else if d == 8 {
        "8"
    } else {
        "9"
    }
}

/// Appends the decimal rendering of `n` to `out`.
pub fn push_usize(out: &mut String, n: usize)
    ensures
        final(out)@ == old(out)@ + spec_usize_str(n as nat),
    decreases n,
{
    let ghost base = out@;
    if n >= 10 {
        push_usize(out, n / 10);
    }
    out.append(digit_str(n % 10));
    proof {
        if n >= 10 {
            assert(out@ =~= base + spec_usize_str(n as nat));
        } else {
            assert(n % 10 == n as int);
            assert(out@ =~= base + spec_usize_str(n as nat));
        }
    }
}

/// Whether `s` holds exactly the characters of `lit`.
pub fn string_eq_str(s: &String, lit: &str) -> (r: bool)
    ensures
        r == (s@ == lit@),
{
    let other = String::from_str(lit);
    *s == other
}

} // verus!
