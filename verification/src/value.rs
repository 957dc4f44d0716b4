//! The dynamic value union exchanged with the template engine, the
//! error taxonomy of the binding layer, and the conversions between
//! dynamic values and the static types the text helpers expect.

use vstd::prelude::*;

use crate::numtext::{dec_str, u64_to_string};

verus! {

/// A dynamic template value: the single interchange type at the engine
/// boundary. Equality is structural. Strings are indexed by codepoint
/// throughout this library.
#[derive(Debug, PartialEq, Eq)]
pub enum Value {
    Nil,
    Bool(bool),
    Int(i64),
    Uint(u64),
    Str(String),
    Array(Vec<Value>),
    Dict(Vec<(String, Value)>),
}

/// Why a call through the binding layer could not proceed.
#[derive(Clone, Debug, PartialEq, Eq)]
pub enum BindError {
    /// The argument list had the wrong length.
    Arity { expected: usize, got: usize },
    /// An argument was not in the expected runtime representation.
    /// The binding layer itself never produces this: its arguments
    /// already are the value union. It is kept so that callers that
    /// carry values through a type-erased container can report it.
    Downcast(usize),
    /// The variant at the given position cannot be coerced to the
    /// static type the helper expects.
    Convert(usize),
    /// The helper body rejected its (well-typed) input; the message is
    /// passed on verbatim.
    Domain(String),
}

/// The message a binding failure carries: it names the argument
/// position or the expected and actual argument count, and passes a
/// domain failure's own words through.
pub open spec fn message_spec(e: BindError) -> Seq<char> {
    match e {
        BindError::Arity { expected, got } => "wrong number of arguments: expected "@ + dec_str(
            expected as int,
        ) + ", got "@ + dec_str(got as int),
        BindError::Downcast(pos) => "unable to downcast argument "@ + dec_str(pos as int),
        BindError::Convert(pos) => "unable to convert argument "@ + dec_str(pos as int),
        BindError::Domain(m) => m@,
    }
}

impl BindError {
    /// Renders the failure as the message a template author sees.
    pub fn message(&self) -> (r: String)
        ensures
            r@ == message_spec(*self),
    {
        match self {
            BindError::Arity { expected, got } => {
                let mut r = String::from_str("wrong number of arguments: expected ");
                let e = u64_to_string(*expected as u64);
                r.append(e.as_str());
                r.append(", got ");
                let g = u64_to_string(*got as u64);
                r.append(g.as_str());
                r
            },
            BindError::Downcast(pos) => {
                let mut r = String::from_str("unable to downcast argument ");
                let p = u64_to_string(*pos as u64);
                r.append(p.as_str());
                r
            },
            BindError::Convert(pos) => {
                let mut r = String::from_str("unable to convert argument ");
                let p = u64_to_string(*pos as u64);
                r.append(p.as_str());
                r
            },
            BindError::Domain(m) => m.clone(),
        }
    }
}

/// Converts a dynamic value into an owned `String`.
/// Only the `Str` variant converts; there is no parse attempt.
pub fn conv_string(v: &Value) -> (r: Option<String>)
    ensures
        match v {
            Value::Str(s) => r matches Some(t) && t@ == s@,
            _ => r is None,
        },
{
    match v {
        Value::Str(s) => Some(s.clone()),
        _ => None,
    }
}

/// Converts a dynamic value into an `i64`: integer variants convert
/// when the value is in range; nothing else does.
pub fn conv_i64(v: &Value) -> (r: Option<i64>)
    ensures
        match v {
            Value::Int(i) => r == Some(*i),
            Value::Uint(u) => if *u <= i64::MAX as u64 {
                r == Some(*u as i64)
            } else {
                r is None
            },
            _ => r is None,
        },
{
    match v {
        Value::Int(i) => Some(*i),
        Value::Uint(u) => if *u <= i64::MAX as u64 {
            Some(*u as i64)
        } else {
            None
        },
        _ => None,
    }
}

/// Converts a dynamic value into a `u64`: integer variants convert
/// when the value is non-negative; nothing else does.
pub fn conv_u64(v: &Value) -> (r: Option<u64>)
    ensures
        match v {
            Value::Uint(u) => r == Some(*u),
            Value::Int(i) => if *i >= 0 {
                r == Some(*i as u64)
            } else {
                r is None
            },
            _ => r is None,
        },
{
    match v {
        Value::Uint(u) => Some(*u),
        Value::Int(i) => if *i >= 0 {
            Some(*i as u64)
        } else {
            None
        },
        _ => None,
    }
}

/// Converts a dynamic value into a `bool`. Only the `Bool` variant
/// converts.
pub fn conv_bool(v: &Value) -> (r: Option<bool>)
    ensures
        match v {
            Value::Bool(b) => r == Some(*b),
            _ => r is None,
        },
{
    match v {
        Value::Bool(b) => Some(*b),
        _ => None,
    }
}

/// Whether every entry of a dictionary holds a string value.
pub open spec fn all_entries_strings(entries: Seq<(String, Value)>) -> bool {
    forall|i: int| 0 <= i < entries.len() ==> (#[trigger] entries[i].1) is Str
}

/// Whether a vector of string pairs holds exactly the entries of a
/// dictionary whose values are all strings, in the same order.
pub open spec fn dict_as_string_pairs(m: Seq<(String, String)>, entries: Seq<(String, Value)>) -> bool {
    &&& m.len() == entries.len()
    &&& forall|j: int|
        0 <= j < m.len() ==> #[trigger] m[j].0@ == entries[j].0@ && m[j].1@ == entries[j].1->Str_0@
}

/// Converts a dynamic value into a string-to-string dictionary: only
/// the `Dict` variant converts, and only when every value in it is a
/// string.
#[verifier::loop_isolation(false)]
pub fn conv_dict(v: &Value) -> (r: Option<Vec<(String, String)>>)
    ensures
        match v {
            Value::Dict(entries) => if all_entries_strings(entries@) {
                r matches Some(m) && dict_as_string_pairs(m@, entries@)
            } else {
                r is None
            },
            _ => r is None,
        },
{
    match v {
        Value::Dict(entries) => {
            let mut m: Vec<(String, String)> = Vec::new();
            let mut i: usize = 0;
            while i < entries.len()
                invariant
                    0 <= i <= entries@.len(),
                    all_entries_strings(entries@.take(i as int)),
                    dict_as_string_pairs(m@, entries@.take(i as int)),
                decreases entries@.len() - i,
            {
                match &entries[i].1 {
                    Value::Str(s) => {
                        m.push((entries[i].0.clone(), s.clone()));
                    },
                    _ => {
                        proof {
                            assert(!((entries@[i as int]).1 is Str));
                        }
                        return None;
                    },
                }
                proof {
                    assert(entries@.take(i + 1 as int)
                        =~= entries@.take(i as int).push(entries@[i as int]));
                }
                i = i + 1;
            }
            proof {
                assert(entries@.take(entries@.len() as int) =~= entries@);
            }
            Some(m)
        },
        _ => None,
    }
}

} // verus!
