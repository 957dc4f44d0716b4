//! Base-64 and base-32 encoding and decoding of strings, through the
//! canonical RFC 4648 alphabets with padding. Decoding an encoded
//! string gives the original back.

use vstd::prelude::*;

use crate::bind::{bad_one_string, one_string, string_arg};
use crate::value::{BindError, Value};

verus! {

/// The canonical padded base-64 encoding of a string's UTF-8 bytes.
pub uninterp spec fn base64_of(s: Seq<char>) -> Seq<char>;

/// The canonical padded base-32 encoding of a string's UTF-8 bytes.
pub uninterp spec fn base32_of(s: Seq<char>) -> Seq<char>;

/// Relies on `data_encoding::BASE64.encode`: the canonical padded
/// RFC 4648 base-64 encoding, a function of the input bytes alone.
#[verifier::external_body]
fn b64_encode(s: &str) -> (r: String)
    ensures
        r@ == base64_of(s@),
{
    data_encoding::BASE64.encode(s.as_bytes())
}

/// Relies on `data_encoding::BASE64.decode` and `String::from_utf8`.
/// Decoding an encoded string never fails and gives back the string
/// that was encoded. The decoder also accepts concatenations of padded
/// blocks, so success alone does not mean the input was a single
/// canonical encoding, and nothing more is promised of other inputs.
#[verifier::external_body]
fn b64_decode(s: &str) -> (r: Result<String, String>)
    ensures
        r is Err ==> (forall|t: Seq<char>| s@ != base64_of(t)),
        r matches Ok(t) ==> (forall|u: Seq<char>| s@ == base64_of(u) ==> u == t@),
{
    match data_encoding::BASE64.decode(s.as_bytes()) {
        Err(e) => Err(format!("unable to decode {}", e)),
        Ok(v) => match String::from_utf8(v) {
            Ok(t) => Ok(t),
            Err(e) => Err(format!("unable to decode: {}", e)),
        },
    }
}

/// Relies on `data_encoding::BASE32.encode`: the canonical padded
/// RFC 4648 base-32 encoding, a function of the input bytes alone.
#[verifier::external_body]
fn b32_encode(s: &str) -> (r: String)
    ensures
        r@ == base32_of(s@),
{
    data_encoding::BASE32.encode(s.as_bytes())
}

/// Relies on `data_encoding::BASE32.decode` and `String::from_utf8`.
/// Decoding an encoded string never fails and gives back the string
/// that was encoded. The decoder also accepts concatenations of padded
/// blocks, so success alone does not mean the input was a single
/// canonical encoding, and nothing more is promised of other inputs.
#[verifier::external_body]
fn b32_decode(s: &str) -> (r: Result<String, String>)
    ensures
        r is Err ==> (forall|t: Seq<char>| s@ != base32_of(t)),
        r matches Ok(t) ==> (forall|u: Seq<char>| s@ == base32_of(u) ==> u == t@),
{
    match data_encoding::BASE32.decode(s.as_bytes()) {
        Err(e) => Err(format!("unable to decode {}", e)),
        Ok(v) => match String::from_utf8(v) {
            Ok(t) => Ok(t),
            Err(e) => Err(format!("unable to decode: {}", e)),
        },
    }
}

/// Decoding the base-64 encoding of any string gives that string back.
pub fn base64_round_trip(s: &str) -> (r: Result<String, String>)
    ensures
        r matches Ok(t) && t@ == s@,
{
    let enc = b64_encode(s);
    let dec = b64_decode(enc.as_str());
    match dec {
        Ok(t) => Ok(t),
        Err(e) => {
            proof {
                assert(false);
            }
            Err(e)
        },
    }
}

/// Decoding the base-32 encoding of any string gives that string back.
pub fn base32_round_trip(s: &str) -> (r: Result<String, String>)
    ensures
        r matches Ok(t) && t@ == s@,
{
    let enc = b32_encode(s);
    let dec = b32_decode(enc.as_str());
    match dec {
        Ok(t) => Ok(t),
        Err(e) => {
            proof {
                assert(false);
            }
            Err(e)
        },
    }
}

/// Base-64 encodes its single string argument.
pub fn base64encode(args: &Vec<Value>) -> (r: Result<Value, BindError>)
    ensures
        bad_one_string(args@) matches Some(e) ==> r == Err::<Value, BindError>(e),
        bad_one_string(args@) is None ==> (r matches Ok(v) && v matches Value::Str(t) && t@
            == base64_of(string_arg(args@[0]))),
{
    let s = match one_string(args) {
        Ok(s) => s,
        Err(e) => {
            return Err(e);
        },
    };
    Ok(Value::Str(b64_encode(s.as_str())))
}

/// Base-64 decodes its single string argument. On the encoding of a
/// string it succeeds and returns that string; an input that is no
/// encoding at all is rejected with a domain error. The decoder also
/// accepts concatenations of padded blocks, and what such an input
/// decodes to is not specified here.
pub fn base64decode(args: &Vec<Value>) -> (r: Result<Value, BindError>)
    ensures
        bad_one_string(args@) matches Some(e) ==> r == Err::<Value, BindError>(e),
        bad_one_string(args@) is None ==> match r {
            Ok(v) => v is Str,
            Err(e) => e matches BindError::Domain(m) && !(exists|t: Seq<char>|
                string_arg(args@[0]) == base64_of(t)),
        },
        bad_one_string(args@) is None ==> (forall|t: Seq<char>|
            string_arg(args@[0]) == base64_of(t) ==> (r matches Ok(v) && v matches Value::Str(u)
                && u@ == t)),
{
    let s = match one_string(args) {
        Ok(s) => s,
        Err(e) => {
            return Err(e);
        },
    };
    match b64_decode(s.as_str()) {
        Ok(t) => Ok(Value::Str(t)),
        Err(m) => Err(BindError::Domain(m)),
    }
}

/// Base-32 encodes its single string argument.
pub fn base32encode(args: &Vec<Value>) -> (r: Result<Value, BindError>)
    ensures
        bad_one_string(args@) matches Some(e) ==> r == Err::<Value, BindError>(e),
        bad_one_string(args@) is None ==> (r matches Ok(v) && v matches Value::Str(t) && t@
            == base32_of(string_arg(args@[0]))),
{
    let s = match one_string(args) {
        Ok(s) => s,
        Err(e) => {
            return Err(e);
        },
    };
    Ok(Value::Str(b32_encode(s.as_str())))
}

/// Base-32 decodes its single string argument. On the encoding of a
/// string it succeeds and returns that string; an input that is no
/// encoding at all is rejected with a domain error. The decoder also
/// accepts concatenations of padded blocks, and what such an input
/// decodes to is not specified here.
pub fn base32decode(args: &Vec<Value>) -> (r: Result<Value, BindError>)
    ensures
        bad_one_string(args@) matches Some(e) ==> r == Err::<Value, BindError>(e),
        bad_one_string(args@) is None ==> match r {
            Ok(v) => v is Str,
            Err(e) => e matches BindError::Domain(m) && !(exists|t: Seq<char>|
                string_arg(args@[0]) == base32_of(t)),
        },
        bad_one_string(args@) is None ==> (forall|t: Seq<char>|
            string_arg(args@[0]) == base32_of(t) ==> (r matches Ok(v) && v matches Value::Str(u)
                && u@ == t)),
{
    let s = match one_string(args) {
        Ok(s) => s,
        Err(e) => {
            return Err(e);
        },
    };
    match b32_decode(s.as_str()) {
        Ok(t) => Ok(Value::Str(t)),
        Err(m) => Err(BindError::Domain(m)),
    }
}

} // verus!
