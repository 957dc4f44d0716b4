//! Random string generation: strings of a requested length drawn from
//! a fixed alphabet. Only the draw of an index is trusted; the length
//! and the alphabet of the result are verified.

use vstd::prelude::*;

use crate::bind::{bad_one_u64, one_u64, u64_arg};
use crate::chars::chars_to_string;
use crate::value::{BindError, Value};

verus! {

/// Whether `c` is an ASCII decimal digit.
pub open spec fn is_digit_char(c: char) -> bool {
    '0' <= c && c <= '9'
}

/// Whether `c` is an ASCII letter.
pub open spec fn is_alpha_char(c: char) -> bool {
    ('a' <= c && c <= 'z') || ('A' <= c && c <= 'Z')
}

/// Whether `c` is an ASCII letter or digit.
pub open spec fn is_alnum_char(c: char) -> bool {
    is_digit_char(c) || is_alpha_char(c)
}

/// Whether `c` is printable ASCII, symbols included (space excluded).
pub open spec fn is_printable_char(c: char) -> bool {
    '!' <= c && c <= '~'
}

/// Relies on `rand::random_range`: a draw from `0..bound` through the
/// thread-local generator; every outcome is below the bound. The
/// outcome itself depends on the generator's state, so nothing more is
/// promised.
#[verifier::external_body]
fn random_below(bound: u64) -> (r: u64)
    requires
        bound > 0,
    ensures
        r < bound,
{
    rand::random_range(0..bound)
}

/// Pushes the characters with code points `lo` through `hi` onto `v`.
#[verifier::loop_isolation(false)]
fn push_ascii_range(v: &mut Vec<char>, lo: u8, hi: u8)
    requires
        lo <= hi < 128,
    ensures
        final(v)@.len() == old(v)@.len() + (hi - lo) + 1,
        forall|j: int|
            old(v)@.len() <= j < final(v)@.len() ==> (lo as char) <= (#[trigger] final(v)@[j])
                <= (hi as char),
        forall|j: int| 0 <= j < old(v)@.len() ==> final(v)@[j] == old(v)@[j],
{
    let mut d: u8 = lo;
    loop
        invariant
            lo <= d <= hi,
            v@.len() == old(v)@.len() + (d - lo),
            forall|j: int|
                old(v)@.len() <= j < v@.len() ==> (lo as char) <= (#[trigger] v@[j]) <= (
                hi as char),
            forall|j: int| 0 <= j < old(v)@.len() ==> v@[j] == old(v)@[j],
        decreases hi - d,
    {
        v.push(d as char);
        if d == hi {
            break ;
        }
        d = d + 1;
    }
}

/// The ten decimal digits.
fn digit_alphabet() -> (v: Vec<char>)
    ensures
        v@.len() == 10,
        forall|j: int| 0 <= j < v@.len() ==> is_digit_char(#[trigger] v@[j]),
{
    let mut v: Vec<char> = Vec::new();
    push_ascii_range(&mut v, 48, 57);
    v
}

/// The 52 ASCII letters.
fn alpha_alphabet() -> (v: Vec<char>)
    ensures
        v@.len() == 52,
        forall|j: int| 0 <= j < v@.len() ==> is_alpha_char(#[trigger] v@[j]),
{
    let mut v: Vec<char> = Vec::new();
    push_ascii_range(&mut v, 97, 122);
    push_ascii_range(&mut v, 65, 90);
    v
}

/// The 62 ASCII letters and digits.
fn alnum_alphabet() -> (v: Vec<char>)
    ensures
        v@.len() == 62,
        forall|j: int| 0 <= j < v@.len() ==> is_alnum_char(#[trigger] v@[j]),
{
    let mut v: Vec<char> = Vec::new();
    push_ascii_range(&mut v, 97, 122);
    push_ascii_range(&mut v, 65, 90);
    push_ascii_range(&mut v, 48, 57);
    v
}

/// The 94 printable ASCII characters, symbols included.
fn printable_alphabet() -> (v: Vec<char>)
    ensures
        v@.len() == 94,
        forall|j: int| 0 <= j < v@.len() ==> is_printable_char(#[trigger] v@[j]),
{
    let mut v: Vec<char> = Vec::new();
    push_ascii_range(&mut v, 33, 126);
    v
}

/// A random string of exactly `count` characters, each drawn from
/// `alphabet`.
#[verifier::loop_isolation(false)]
fn random_string_from(alphabet: &Vec<char>, count: u64) -> (r: String)
    requires
        alphabet@.len() > 0,
    ensures
        r@.len() == count,
        forall|j: int| 0 <= j < count ==> alphabet@.contains(#[trigger] r@[j]),
{
    let mut out: Vec<char> = Vec::new();
    let mut i: u64 = 0;
    while i < count
        invariant
            0 <= i <= count,
            out@.len() == i,
            forall|j: int| 0 <= j < i ==> alphabet@.contains(#[trigger] out@[j]),
        decreases count - i,
    {
        let k = random_below(alphabet.len() as u64);
        out.push(alphabet[k as usize]);
        proof {
            assert(out@[i as int] == alphabet@[k as int]);
        }
        i = i + 1;
    }
    chars_to_string(&out)
}

/// Generates a random string of exactly the requested length, made of
/// ASCII letters and digits only.
pub fn rand_alpha_numeric(args: &Vec<Value>) -> (r: Result<Value, BindError>)
    ensures
        bad_one_u64(args@) matches Some(e) ==> r == Err::<Value, BindError>(e),
        bad_one_u64(args@) is None ==> (r matches Ok(v) && v matches Value::Str(t) && t@.len()
            == u64_arg(args@[0]) && forall|j: int|
            0 <= j < t@.len() ==> is_alnum_char(#[trigger] t@[j])),
{
    let count = match one_u64(args) {
        Ok(n) => n,
        Err(e) => {
            return Err(e);
        },
    };
    let alphabet = alnum_alphabet();
    Ok(Value::Str(random_string_from(&alphabet, count)))
}

/// Generates a random string of exactly the requested length, made of
/// ASCII letters only.
pub fn rand_alpha(args: &Vec<Value>) -> (r: Result<Value, BindError>)
    ensures
        bad_one_u64(args@) matches Some(e) ==> r == Err::<Value, BindError>(e),
        bad_one_u64(args@) is None ==> (r matches Ok(v) && v matches Value::Str(t) && t@.len()
            == u64_arg(args@[0]) && forall|j: int|
            0 <= j < t@.len() ==> is_alpha_char(#[trigger] t@[j])),
{
    let count = match one_u64(args) {
        Ok(n) => n,
        Err(e) => {
            return Err(e);
        },
    };
    let alphabet = alpha_alphabet();
    Ok(Value::Str(random_string_from(&alphabet, count)))
}

/// Generates a random string of exactly the requested length, made of
/// printable ASCII characters, symbols included.
pub fn rand_ascii(args: &Vec<Value>) -> (r: Result<Value, BindError>)
    ensures
        bad_one_u64(args@) matches Some(e) ==> r == Err::<Value, BindError>(e),
        bad_one_u64(args@) is None ==> (r matches Ok(v) && v matches Value::Str(t) && t@.len()
            == u64_arg(args@[0]) && forall|j: int|
            0 <= j < t@.len() ==> is_printable_char(#[trigger] t@[j])),
{
    let count = match one_u64(args) {
        Ok(n) => n,
        Err(e) => {
            return Err(e);
        },
    };
    let alphabet = printable_alphabet();
    Ok(Value::Str(random_string_from(&alphabet, count)))
}

/// Generates a random string of exactly the requested length, made of
/// decimal digits only.
pub fn rand_numeric(args: &Vec<Value>) -> (r: Result<Value, BindError>)
    ensures
        bad_one_u64(args@) matches Some(e) ==> r == Err::<Value, BindError>(e),
        bad_one_u64(args@) is None ==> (r matches Ok(v) && v matches Value::Str(t) && t@.len()
            == u64_arg(args@[0]) && forall|j: int|
            0 <= j < t@.len() ==> is_digit_char(#[trigger] t@[j])),
{
    let count = match one_u64(args) {
        Ok(n) => n,
        Err(e) => {
            return Err(e);
        },
    };
    let alphabet = digit_alphabet();
    Ok(Value::Str(random_string_from(&alphabet, count)))
}

} // verus!
