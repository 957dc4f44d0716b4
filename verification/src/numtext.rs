//! Decimal rendering of integers, used for the `_N` keys of `split`
//! and for the string form of numeric template values.

use vstd::prelude::*;

use crate::chars::chars_to_string;

verus! {

/// The decimal digit character for `d`.
pub open spec fn dec_digit(d: int) -> char
    recommends
        0 <= d < 10,
{
    if d == 0 {
        '0'
    } else if d == 1 {
        '1'
    } else if d == 2 {
        '2'
    } else if d == 3 {
        '3'
    } else if d == 4 {
        '4'
    } else if d == 5 {
        '5'
    } else if d == 6 {
        '6'
    } else if d == 7 {
        '7'
    } else if d == 8 {
        '8'
    } else {
        '9'
    }
}

/// The decimal notation of a non-negative integer, without sign and
/// without leading zeroes (a single `'0'` for zero).
pub open spec fn dec_str(n: int) -> Seq<char>
    recommends
        n >= 0,
    decreases n,
{
    if n < 10 {
        seq![dec_digit(n)]
    } else {
        dec_str(n / 10).push(dec_digit(n % 10))
    }
}

/// The decimal notation of an integer, with a leading `'-'` when it is
/// negative.
pub open spec fn int_str(n: int) -> Seq<char> {
    if n >= 0 {
        dec_str(n)
    } else {
        seq!['-'] + dec_str(-n)
    }
}

fn dec_digit_exec(d: u64) -> (c: char)
    requires
        d < 10,
    ensures
        c == dec_digit(d as int),
{
    if d == 0 {
        '0'
    } else if d == 1 {
        '1'
    } else if d == 2 {
        '2'
    } else if d == 3 {
        '3'
    } else if d == 4 {
        '4'
    } else if d == 5 {
        '5'
    } else if d == 6 {
        '6'
    } else if d == 7 {
        '7'
    } else if d == 8 {
        '8'
    } else {
        '9'
    }
}

/// Renders `n` in decimal.
#[verifier::loop_isolation(false)]
pub fn u64_to_string(n: u64) -> (r: String)
    ensures
        r@ == dec_str(n as int),
{
    let mut digits: Vec<char> = Vec::new();
    digits.push(dec_digit_exec(n % 10));
    let mut cur: u64 = n / 10;
    proof {
        if n < 10 {
            assert(digits@ =~= dec_str(n as int));
        } else {
            assert(digits@ =~= seq![dec_digit(n as int % 10)]);
            assert(dec_str(n as int) =~= dec_str(n as int / 10) + digits@);
        }
    }
    while cur > 0
        invariant
            cur > 0 ==> dec_str(n as int) =~= dec_str(cur as int) + digits@,
            cur == 0 ==> digits@ =~= dec_str(n as int),
        decreases cur,
    {
        let d: u64 = cur % 10;
        let ghost before = digits@;
        digits.insert(0, dec_digit_exec(d));
        proof {
            assert(digits@ =~= seq![dec_digit(d as int)] + before);
            if cur < 10 {
                assert(dec_str(cur as int) =~= seq![dec_digit(cur as int)]);
                assert(digits@ =~= dec_str(n as int));
            } else {
                assert(dec_str(cur as int) =~= dec_str(cur as int / 10).push(
                    dec_digit(cur as int % 10),
                ));
                assert(dec_str(n as int) =~= dec_str(cur as int / 10) + digits@);
            }
        }
        cur = cur / 10;
    }
    chars_to_string(&digits)
}

/// Renders `n` in decimal, with a `'-'` sign when it is negative.
pub fn i64_to_string(n: i64) -> (r: String)
    ensures
        r@ == int_str(n as int),
{
    if n >= 0 {
        u64_to_string(n as u64)
    } else {
        let m: u64 = ((-(n + 1)) as u64) + 1;
        proof {
            assert(m == -(n as int));
        }
        let tail = u64_to_string(m);
        let mut r = String::from_str("-");
        proof {
            reveal_strlit("-");
            assert(r@ =~= seq!['-']);
        }
        r.append(tail.as_str());
        r
    }
}

} // verus!
