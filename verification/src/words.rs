//! Word-oriented helpers: the initials of whitespace-separated words,
//! and `untitle`, which lower-cases the first character of every word.

use vstd::prelude::*;

use crate::bind::{bad_one_string, one_string, string_arg};
use crate::chars::{chars_to_string, is_space, is_space_char, str_to_chars};
use crate::search::push_seq;
use crate::value::{BindError, Value};

verus! {

/// What `char::to_lowercase` yields for a character: the Unicode
/// lowercase mapping, which can be more than one character long.
pub uninterp spec fn lower_char(c: char) -> Seq<char>;

/// Relies on `char::to_lowercase`: the Unicode lowercase mapping of a
/// character depends on the character alone, and a character with no
/// lowercase mapping yields itself, so the result is never empty.
#[verifier::external_body]
fn lowercase_char(c: char) -> (r: String)
    ensures
        r@ == lower_char(c),
        r@.len() >= 1,
{
    c.to_lowercase().to_string()
}

/// The first character of every whitespace-separated word of `s`,
/// concatenated. `in_word` says whether the scan stands inside a word.
pub open spec fn initials_spec(s: Seq<char>, in_word: bool) -> Seq<char>
    decreases s.len(),
{
    if s.len() == 0 {
        Seq::<char>::empty()
    } else if is_space_char(s[0]) {
        initials_spec(s.skip(1), false)
    } else if !in_word {
        seq![s[0]] + initials_spec(s.skip(1), true)
    } else {
        initials_spec(s.skip(1), true)
    }
}

/// `s` with the first character of every whitespace-separated word
/// lower-cased and everything else unchanged. `at_word_start` says
/// whether the next character starts a word.
pub open spec fn untitle_spec(s: Seq<char>, at_word_start: bool) -> Seq<char>
    decreases s.len(),
{
    if s.len() == 0 {
        Seq::<char>::empty()
    } else if is_space_char(s[0]) {
        seq![s[0]] + untitle_spec(s.skip(1), true)
    } else if at_word_start {
        lower_char(s[0]) + untitle_spec(s.skip(1), false)
    } else {
        seq![s[0]] + untitle_spec(s.skip(1), false)
    }
}

/// Concatenates the first character of every whitespace-separated word
/// of its single string argument.
#[verifier::loop_isolation(false)]
pub fn initials(args: &Vec<Value>) -> (r: Result<Value, BindError>)
    ensures
        bad_one_string(args@) matches Some(e) ==> r == Err::<Value, BindError>(e),
        bad_one_string(args@) is None ==> (r matches Ok(v) && v matches Value::Str(t) && t@
            == initials_spec(string_arg(args@[0]), false)),
{
    let s = match one_string(args) {
        Ok(s) => s,
        Err(e) => {
            return Err(e);
        },
    };
    let sv = str_to_chars(s.as_str());
    let mut out: Vec<char> = Vec::new();
    let mut in_word = false;
    let mut i: usize = 0;
    proof {
        assert(sv@.skip(0) =~= sv@);
    }
    while i < sv.len()
        invariant
            0 <= i <= sv@.len(),
            initials_spec(sv@, false) =~= out@ + initials_spec(sv@.skip(i as int), in_word),
        decreases sv@.len() - i,
    {
        let c = sv[i];
        proof {
            assert(sv@.skip(i as int)[0] == sv@[i as int]);
            assert(sv@.skip(i as int).skip(1) =~= sv@.skip(i + 1 as int));
        }
        if is_space(c) {
            in_word = false;
        } else {
            if !in_word {
                out.push(c);
            }
            in_word = true;
        }
        i = i + 1;
    }
    Ok(Value::Str(chars_to_string(&out)))
}

/// Lower-cases the first character of every whitespace-separated word
/// of its single string argument, leaving all other characters as they
/// are.
#[verifier::loop_isolation(false)]
pub fn untitle(args: &Vec<Value>) -> (r: Result<Value, BindError>)
    ensures
        bad_one_string(args@) matches Some(e) ==> r == Err::<Value, BindError>(e),
        bad_one_string(args@) is None ==> (r matches Ok(v) && v matches Value::Str(t) && t@
            == untitle_spec(string_arg(args@[0]), true)),
{
    let s = match one_string(args) {
        Ok(s) => s,
        Err(e) => {
            return Err(e);
        },
    };
    let sv = str_to_chars(s.as_str());
    let mut out: Vec<char> = Vec::new();
    let mut at_start = true;
    let mut i: usize = 0;
    proof {
        assert(sv@.skip(0) =~= sv@);
    }
    while i < sv.len()
        invariant
            0 <= i <= sv@.len(),
            untitle_spec(sv@, true) =~= out@ + untitle_spec(sv@.skip(i as int), at_start),
        decreases sv@.len() - i,
    {
        let c = sv[i];
        proof {
            assert(sv@.skip(i as int)[0] == sv@[i as int]);
            assert(sv@.skip(i as int).skip(1) =~= sv@.skip(i + 1 as int));
        }
        if is_space(c) {
            out.push(c);
            at_start = true;
        } else if at_start {
            let low = lowercase_char(c);
            let lv = str_to_chars(low.as_str());
            push_seq(&mut out, &lv);
            at_start = false;
        } else {
            out.push(c);
            at_start = false;
        }
        i = i + 1;
    }
    Ok(Value::Str(chars_to_string(&out)))
}

} // verus!
