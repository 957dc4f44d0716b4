//! Truncation helpers: `abbrev`, `abbrevboth`, `trunc`, `substring`
//! and `plural`. Positions are codepoint indices; a request that does
//! not fit inside the string falls back to returning it unchanged.

use vstd::prelude::*;

use crate::bind::{
    bad_i64_then_string, bad_two_i64_then_string, bad_two_strings_then_i64, i64_arg,
    i64_then_string, string_arg, two_i64_then_string, two_strings_then_i64,
};
use crate::chars::{chars_to_string, str_to_chars};
use crate::trims::copy_range;
use crate::value::{BindError, Value};

verus! {

/// `s` cut to `width` characters, the last three of them an ellipsis.
/// Requests below a usable ellipsis size, and strings already shorter
/// than `width`, are left unchanged.
pub open spec fn abbrev_spec(width: int, s: Seq<char>) -> Seq<char> {
    if width < 4 || s.len() < width {
        s
    } else {
        s.take(width - 3) + "..."@
    }
}

/// An index clamped into `[0, n]`: negative and too-large requests
/// both land on `n`.
pub open spec fn clamp_to_len(x: int, n: int) -> int {
    if x < 0 || x > n {
        n
    } else {
        x
    }
}

/// `s` abbreviated from both sides: `left` characters cut in front
/// (behind an ellipsis) and the whole kept within `right` characters.
pub open spec fn abbrevboth_spec(left: int, right: int, s: Seq<char>) -> Seq<char> {
    let offset = clamp_to_len(left, s.len() as int);
    let mw = clamp_to_len(right, s.len() as int);
    if mw < 4 || (offset > 0 && mw < 7) || s.len() <= mw {
        s
    } else if offset <= 4 {
        s.take(mw - 3) + "..."@
    } else if offset + mw - 3 < s.len() {
        "..."@ + s.subrange(offset, offset + mw - 6) + "..."@
    } else {
        "..."@ + s.skip(s.len() - (mw - 3))
    }
}

/// The first `len` characters of `s`; out-of-range requests leave `s`
/// unchanged.
pub open spec fn trunc_spec(len: int, s: Seq<char>) -> Seq<char> {
    if len < 0 || len > s.len() {
        s
    } else {
        s.take(len)
    }
}

/// The slice of `s` from `start` up to the end position `len` (the
/// second parameter acts as an absolute end offset, not a count). A
/// negative `start` is clamped to zero, a negative `len` means the end
/// of the string, and any request that does not fit returns `s`
/// unchanged.
pub open spec fn substring_spec(start: int, len: int, s: Seq<char>) -> Seq<char> {
    let st = if start < 0 {
        0
    } else {
        start
    };
    let en = if len < 0 {
        s.len() as int
    } else {
        len
    };
    if st > en || st > s.len() || en > s.len() {
        s
    } else {
        s.subrange(st, en)
    }
}

/// `abbrev` never returns more than `max(len(s), width)` characters,
/// and for `width < 4` or a string shorter than `width` it returns the
/// string unchanged.
pub proof fn lemma_abbrev_bounds(width: int, s: Seq<char>)
    ensures
        abbrev_spec(width, s).len() <= vstd::math::max(s.len() as int, width),
        width < 4 || s.len() < width ==> abbrev_spec(width, s) == s,
{
    reveal_strlit("...");
}

/// `substring` always returns either the string unchanged or a
/// contiguous slice of it.
pub proof fn lemma_substring_slice(start: int, len: int, s: Seq<char>)
    ensures
        substring_spec(start, len, s) == s || exists|a: int, b: int|
            0 <= a <= b <= s.len() && substring_spec(start, len, s) == s.subrange(a, b),
{
    let st = if start < 0 {
        0
    } else {
        start
    };
    let en = if len < 0 {
        s.len() as int
    } else {
        len
    };
    if !(st > en || st > s.len() || en > s.len()) {
        assert(0 <= st <= en <= s.len() && substring_spec(start, len, s) == s.subrange(st, en));
    }
}

/// Abbreviates the string given second to the width given first.
pub fn abbrev(args: &Vec<Value>) -> (r: Result<Value, BindError>)
    ensures
        bad_i64_then_string(args@) matches Some(e) ==> r == Err::<Value, BindError>(e),
        bad_i64_then_string(args@) is None ==> (r matches Ok(v) && v matches Value::Str(t) && t@
            == abbrev_spec(i64_arg(args@[0]), string_arg(args@[1]))),
{
    let (width, s) = match i64_then_string(args) {
        Ok(p) => p,
        Err(e) => {
            return Err(e);
        },
    };
    let sv = str_to_chars(s.as_str());
    if width < 4 || (sv.len() as u64) < (width as u64) {
        return Ok(Value::Str(s));
    }
    let head = copy_range(&sv, 0, (width as usize) - 3);
    let mut out = chars_to_string(&head);
    out.append("...");
    proof {
        assert(sv@.subrange(0, width - 3) =~= sv@.take(width - 3));
    }
    Ok(Value::Str(out))
}

/// Abbreviates the string given third from both sides, with the
/// offset given first and the width given second.
pub fn abbrevboth(args: &Vec<Value>) -> (r: Result<Value, BindError>)
    ensures
        bad_two_i64_then_string(args@) matches Some(e) ==> r == Err::<Value, BindError>(e),
        bad_two_i64_then_string(args@) is None ==> (r matches Ok(v) && v matches Value::Str(t)
            && t@ == abbrevboth_spec(i64_arg(args@[0]), i64_arg(args@[1]), string_arg(args@[2]))),
{
    let (left, right, s) = match two_i64_then_string(args) {
        Ok(p) => p,
        Err(e) => {
            return Err(e);
        },
    };
    let sv = str_to_chars(s.as_str());
    let n = sv.len();
    let offset: usize = if left < 0 {
        n
    } else if (left as u64) >= (n as u64) {
        n
    } else {
        left as usize
    };
    let mw: usize = if right < 0 {
        n
    } else if (right as u64) >= (n as u64) {
        n
    } else {
        right as usize
    };
    if mw < 4 || (offset > 0 && mw < 7) || n <= mw {
        return Ok(Value::Str(s));
    }
    if offset <= 4 {
        let head = copy_range(&sv, 0, mw - 3);
        let mut out = chars_to_string(&head);
        out.append("...");
        proof {
            assert(sv@.subrange(0, mw - 3) =~= sv@.take(mw - 3));
        }
        return Ok(Value::Str(out));
    }
    if offset < n - mw + 3 {
        let mid = copy_range(&sv, offset, offset + (mw - 6));
        let mid_s = chars_to_string(&mid);
        let mut out = String::from_str("...");
        out.append(mid_s.as_str());
        out.append("...");
        return Ok(Value::Str(out));
    }
    let tail = copy_range(&sv, n - (mw - 3), n);
    let tail_s = chars_to_string(&tail);
    let mut out = String::from_str("...");
    out.append(tail_s.as_str());
    proof {
        assert(sv@.subrange(n - (mw - 3), n as int) =~= sv@.skip(n - (mw - 3)));
    }
    Ok(Value::Str(out))
}

/// Truncates the string given second to the length given first, with
/// no suffix added.
pub fn trunc(args: &Vec<Value>) -> (r: Result<Value, BindError>)
    ensures
        bad_i64_then_string(args@) matches Some(e) ==> r == Err::<Value, BindError>(e),
        bad_i64_then_string(args@) is None ==> (r matches Ok(v) && v matches Value::Str(t) && t@
            == trunc_spec(i64_arg(args@[0]), string_arg(args@[1]))),
{
    let (len, s) = match i64_then_string(args) {
        Ok(p) => p,
        Err(e) => {
            return Err(e);
        },
    };
    let sv = str_to_chars(s.as_str());
    if len < 0 || (len as u64) > (sv.len() as u64) {
        return Ok(Value::Str(s));
    }
    let head = copy_range(&sv, 0, len as usize);
    proof {
        assert(sv@.subrange(0, len as int) =~= sv@.take(len as int));
    }
    Ok(Value::Str(chars_to_string(&head)))
}

/// Takes the slice of the string given third between the start
/// position given first and the end position given second.
pub fn substring(args: &Vec<Value>) -> (r: Result<Value, BindError>)
    ensures
        bad_two_i64_then_string(args@) matches Some(e) ==> r == Err::<Value, BindError>(e),
        bad_two_i64_then_string(args@) is None ==> (r matches Ok(v) && v matches Value::Str(t)
            && t@ == substring_spec(i64_arg(args@[0]), i64_arg(args@[1]), string_arg(args@[2]))),
{
    let (start, len, s) = match two_i64_then_string(args) {
        Ok(p) => p,
        Err(e) => {
            return Err(e);
        },
    };
    let sv = str_to_chars(s.as_str());
    let n = sv.len();
    let st: u64 = if start < 0 {
        0
    } else {
        start as u64
    };
    if st > (n as u64) {
        return Ok(Value::Str(s));
    }
    let en: u64 = if len < 0 {
        n as u64
    } else {
        len as u64
    };
    if st > en || en > (n as u64) {
        return Ok(Value::Str(s));
    }
    let out = copy_range(&sv, st as usize, en as usize);
    Ok(Value::Str(chars_to_string(&out)))
}

/// Chooses between the singular given first and the plural given
/// second, by the count given third.
pub fn plural(args: &Vec<Value>) -> (r: Result<Value, BindError>)
    ensures
        bad_two_strings_then_i64(args@) matches Some(e) ==> r == Err::<Value, BindError>(e),
        bad_two_strings_then_i64(args@) is None ==> (r matches Ok(v) && v matches Value::Str(t)
            && t@ == if i64_arg(args@[2]) == 1 {
            string_arg(args@[0])
        } else {
            string_arg(args@[1])
        }),
{
    let (one, many, count) = match two_strings_then_i64(args) {
        Ok(p) => p,
        Err(e) => {
            return Err(e);
        },
    };
    if count == 1 {
        Ok(Value::Str(one))
    } else {
        Ok(Value::Str(many))
    }
}

} // verus!
