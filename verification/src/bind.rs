//! The binding layer's argument handling: each helper checks the
//! arity of a dynamic argument list and converts the arguments, left
//! to right, into the static types a text function expects. The first
//! failure is reported and nothing is partially converted.

use vstd::prelude::*;

use crate::value::{conv_i64, conv_string, conv_u64, BindError, Value};

verus! {

/// The error for an argument list of the wrong length.
pub open spec fn arity_error(expected: int, got: int) -> BindError {
    BindError::Arity { expected: expected as usize, got: got as usize }
}

/// Whether the value converts to a `String` (only the `Str` variant
/// does).
pub open spec fn is_string_arg(v: Value) -> bool {
    v is Str
}

/// The string a `Str` value holds.
pub open spec fn string_arg(v: Value) -> Seq<char> {
    v->Str_0@
}

/// Whether the value converts to an `i64`.
pub open spec fn is_i64_arg(v: Value) -> bool {
    match v {
        Value::Int(_) => true,
        Value::Uint(u) => u <= i64::MAX as u64,
        _ => false,
    }
}

/// The `i64` an integer value holds.
pub open spec fn i64_arg(v: Value) -> int {
    match v {
        Value::Int(i) => i as int,
        Value::Uint(u) => u as int,
        _ => 0,
    }
}

/// Whether the value converts to a `u64`.
pub open spec fn is_u64_arg(v: Value) -> bool {
    match v {
        Value::Uint(_) => true,
        Value::Int(i) => i >= 0,
        _ => false,
    }
}

/// The `u64` an integer value holds.
pub open spec fn u64_arg(v: Value) -> int {
    match v {
        Value::Uint(u) => u as int,
        Value::Int(i) => i as int,
        _ => 0,
    }
}

/// The first binding failure, if any, for a signature of one string.
pub open spec fn bad_one_string(args: Seq<Value>) -> Option<BindError> {
    if args.len() != 1 {
        Some(arity_error(1, args.len() as int))
    } else if !is_string_arg(args[0]) {
        Some(BindError::Convert(0))
    } else {
        None
    }
}

/// The first binding failure, if any, for a signature of two strings.
pub open spec fn bad_two_strings(args: Seq<Value>) -> Option<BindError> {
    if args.len() != 2 {
        Some(arity_error(2, args.len() as int))
    } else if !is_string_arg(args[0]) {
        Some(BindError::Convert(0))
    } else if !is_string_arg(args[1]) {
        Some(BindError::Convert(1))
    } else {
        None
    }
}

/// The first binding failure, if any, for a signature of three
/// strings.
pub open spec fn bad_three_strings(args: Seq<Value>) -> Option<BindError> {
    if args.len() != 3 {
        Some(arity_error(3, args.len() as int))
    } else if !is_string_arg(args[0]) {
        Some(BindError::Convert(0))
    } else if !is_string_arg(args[1]) {
        Some(BindError::Convert(1))
    } else if !is_string_arg(args[2]) {
        Some(BindError::Convert(2))
    } else {
        None
    }
}

/// The first binding failure, if any, for a signature of an `i64`
/// followed by a string.
pub open spec fn bad_i64_then_string(args: Seq<Value>) -> Option<BindError> {
    if args.len() != 2 {
        Some(arity_error(2, args.len() as int))
    } else if !is_i64_arg(args[0]) {
        Some(BindError::Convert(0))
    } else if !is_string_arg(args[1]) {
        Some(BindError::Convert(1))
    } else {
        None
    }
}

/// The first binding failure, if any, for a signature of two `i64`s
/// followed by a string.
pub open spec fn bad_two_i64_then_string(args: Seq<Value>) -> Option<BindError> {
    if args.len() != 3 {
        Some(arity_error(3, args.len() as int))
    } else if !is_i64_arg(args[0]) {
        Some(BindError::Convert(0))
    } else if !is_i64_arg(args[1]) {
        Some(BindError::Convert(1))
    } else if !is_string_arg(args[2]) {
        Some(BindError::Convert(2))
    } else {
        None
    }
}

/// The first binding failure, if any, for a signature of two strings
/// followed by an `i64`.
pub open spec fn bad_two_strings_then_i64(args: Seq<Value>) -> Option<BindError> {
    if args.len() != 3 {
        Some(arity_error(3, args.len() as int))
    } else if !is_string_arg(args[0]) {
        Some(BindError::Convert(0))
    } else if !is_string_arg(args[1]) {
        Some(BindError::Convert(1))
    } else if !is_i64_arg(args[2]) {
        Some(BindError::Convert(2))
    } else {
        None
    }
}

/// The first binding failure, if any, for a signature of one `u64`.
pub open spec fn bad_one_u64(args: Seq<Value>) -> Option<BindError> {
    if args.len() != 1 {
        Some(arity_error(1, args.len() as int))
    } else if !is_u64_arg(args[0]) {
        Some(BindError::Convert(0))
    } else {
        None
    }
}

/// Takes exactly one string argument out of a dynamic argument list.
pub fn one_string(args: &Vec<Value>) -> (r: Result<String, BindError>)
    ensures
        args@.len() != 1 ==> (r matches Err(e) && e == arity_error(1, args@.len() as int)),
        args@.len() == 1 && !is_string_arg(args@[0]) ==> (r matches Err(e) && e
            == BindError::Convert(0)),
        args@.len() == 1 && is_string_arg(args@[0]) ==> (r matches Ok(s) && s@ == string_arg(args@[0])),
{
    if args.len() != 1 {
        return Err(BindError::Arity { expected: 1, got: args.len() });
    }
    match conv_string(&args[0]) {
        Some(s) => Ok(s),
        None => Err(BindError::Convert(0)),
    }
}

/// Takes exactly two string arguments out of a dynamic argument list.
pub fn two_strings(args: &Vec<Value>) -> (r: Result<(String, String), BindError>)
    ensures
        args@.len() != 2 ==> (r matches Err(e) && e == arity_error(2, args@.len() as int)),
        args@.len() == 2 && !is_string_arg(args@[0]) ==> (r matches Err(e) && e
            == BindError::Convert(0)),
        args@.len() == 2 && is_string_arg(args@[0]) && !is_string_arg(args@[1]) ==> (r matches Err(e)
            && e == BindError::Convert(1)),
        args@.len() == 2 && is_string_arg(args@[0]) && is_string_arg(args@[1]) ==> (r matches Ok(p)
            && p.0@ == string_arg(args@[0]) && p.1@ == string_arg(args@[1])),
{
    if args.len() != 2 {
        return Err(BindError::Arity { expected: 2, got: args.len() });
    }
    let a = match conv_string(&args[0]) {
        Some(s) => s,
        None => {
            return Err(BindError::Convert(0));
        },
    };
    match conv_string(&args[1]) {
        Some(b) => Ok((a, b)),
        None => Err(BindError::Convert(1)),
    }
}

/// Takes exactly three string arguments out of a dynamic argument
/// list.
pub fn three_strings(args: &Vec<Value>) -> (r: Result<(String, String, String), BindError>)
    ensures
        args@.len() != 3 ==> (r matches Err(e) && e == arity_error(3, args@.len() as int)),
        args@.len() == 3 && !is_string_arg(args@[0]) ==> (r matches Err(e) && e
            == BindError::Convert(0)),
        args@.len() == 3 && is_string_arg(args@[0]) && !is_string_arg(args@[1]) ==> (r matches Err(e)
            && e == BindError::Convert(1)),
        args@.len() == 3 && is_string_arg(args@[0]) && is_string_arg(args@[1]) && !is_string_arg(
            args@[2],
        ) ==> (r matches Err(e) && e == BindError::Convert(2)),
        args@.len() == 3 && is_string_arg(args@[0]) && is_string_arg(args@[1]) && is_string_arg(
            args@[2],
        ) ==> (r matches Ok(p) && p.0@ == string_arg(args@[0]) && p.1@ == string_arg(args@[1])
            && p.2@ == string_arg(args@[2])),
{
    if args.len() != 3 {
        return Err(BindError::Arity { expected: 3, got: args.len() });
    }
    let a = match conv_string(&args[0]) {
        Some(s) => s,
        None => {
            return Err(BindError::Convert(0));
        },
    };
    let b = match conv_string(&args[1]) {
        Some(s) => s,
        None => {
            return Err(BindError::Convert(1));
        },
    };
    match conv_string(&args[2]) {
        Some(c) => Ok((a, b, c)),
        None => Err(BindError::Convert(2)),
    }
}

/// Takes an `i64` followed by a string out of a dynamic argument list.
pub fn i64_then_string(args: &Vec<Value>) -> (r: Result<(i64, String), BindError>)
    ensures
        args@.len() != 2 ==> (r matches Err(e) && e == arity_error(2, args@.len() as int)),
        args@.len() == 2 && !is_i64_arg(args@[0]) ==> (r matches Err(e) && e == BindError::Convert(0)),
        args@.len() == 2 && is_i64_arg(args@[0]) && !is_string_arg(args@[1]) ==> (r matches Err(e)
            && e == BindError::Convert(1)),
        args@.len() == 2 && is_i64_arg(args@[0]) && is_string_arg(args@[1]) ==> (r matches Ok(p)
            && p.0 as int == i64_arg(args@[0]) && p.1@ == string_arg(args@[1])),
{
    if args.len() != 2 {
        return Err(BindError::Arity { expected: 2, got: args.len() });
    }
    let n = match conv_i64(&args[0]) {
        Some(n) => n,
        None => {
            return Err(BindError::Convert(0));
        },
    };
    match conv_string(&args[1]) {
        Some(s) => Ok((n, s)),
        None => Err(BindError::Convert(1)),
    }
}

/// Takes two `i64`s followed by a string out of a dynamic argument
/// list.
pub fn two_i64_then_string(args: &Vec<Value>) -> (r: Result<(i64, i64, String), BindError>)
    ensures
        args@.len() != 3 ==> (r matches Err(e) && e == arity_error(3, args@.len() as int)),
        args@.len() == 3 && !is_i64_arg(args@[0]) ==> (r matches Err(e) && e == BindError::Convert(0)),
        args@.len() == 3 && is_i64_arg(args@[0]) && !is_i64_arg(args@[1]) ==> (r matches Err(e) && e
            == BindError::Convert(1)),
        args@.len() == 3 && is_i64_arg(args@[0]) && is_i64_arg(args@[1]) && !is_string_arg(
            args@[2],
        ) ==> (r matches Err(e) && e == BindError::Convert(2)),
        args@.len() == 3 && is_i64_arg(args@[0]) && is_i64_arg(args@[1]) && is_string_arg(args@[2])
            ==> (r matches Ok(p) && p.0 as int == i64_arg(args@[0]) && p.1 as int == i64_arg(
            args@[1],
        ) && p.2@ == string_arg(args@[2])),
{
    if args.len() != 3 {
        return Err(BindError::Arity { expected: 3, got: args.len() });
    }
    let a = match conv_i64(&args[0]) {
        Some(n) => n,
        None => {
            return Err(BindError::Convert(0));
        },
    };
    let b = match conv_i64(&args[1]) {
        Some(n) => n,
        None => {
            return Err(BindError::Convert(1));
        },
    };
    match conv_string(&args[2]) {
        Some(s) => Ok((a, b, s)),
        None => Err(BindError::Convert(2)),
    }
}

/// Takes two strings followed by an `i64` out of a dynamic argument
/// list.
pub fn two_strings_then_i64(args: &Vec<Value>) -> (r: Result<(String, String, i64), BindError>)
    ensures
        args@.len() != 3 ==> (r matches Err(e) && e == arity_error(3, args@.len() as int)),
        args@.len() == 3 && !is_string_arg(args@[0]) ==> (r matches Err(e) && e
            == BindError::Convert(0)),
        args@.len() == 3 && is_string_arg(args@[0]) && !is_string_arg(args@[1]) ==> (r matches Err(e)
            && e == BindError::Convert(1)),
        args@.len() == 3 && is_string_arg(args@[0]) && is_string_arg(args@[1]) && !is_i64_arg(
            args@[2],
        ) ==> (r matches Err(e) && e == BindError::Convert(2)),
        args@.len() == 3 && is_string_arg(args@[0]) && is_string_arg(args@[1]) && is_i64_arg(
            args@[2],
        ) ==> (r matches Ok(p) && p.0@ == string_arg(args@[0]) && p.1@ == string_arg(args@[1])
            && p.2 as int == i64_arg(args@[2])),
{
    if args.len() != 3 {
        return Err(BindError::Arity { expected: 3, got: args.len() });
    }
    let a = match conv_string(&args[0]) {
        Some(s) => s,
        None => {
            return Err(BindError::Convert(0));
        },
    };
    let b = match conv_string(&args[1]) {
        Some(s) => s,
        None => {
            return Err(BindError::Convert(1));
        },
    };
    match conv_i64(&args[2]) {
        Some(n) => Ok((a, b, n)),
        None => Err(BindError::Convert(2)),
    }
}

/// Takes exactly one `u64` argument out of a dynamic argument list.
pub fn one_u64(args: &Vec<Value>) -> (r: Result<u64, BindError>)
    ensures
        args@.len() != 1 ==> (r matches Err(e) && e == arity_error(1, args@.len() as int)),
        args@.len() == 1 && !is_u64_arg(args@[0]) ==> (r matches Err(e) && e == BindError::Convert(0)),
        args@.len() == 1 && is_u64_arg(args@[0]) ==> (r matches Ok(n) && n as int == u64_arg(args@[0])),
{
    if args.len() != 1 {
        return Err(BindError::Arity { expected: 1, got: args.len() });
    }
    match conv_u64(&args[0]) {
        Some(n) => Ok(n),
        None => Err(BindError::Convert(0)),
    }
}

} // verus!
