//! Edge cases, error reporting, and concrete instances of the
//! library's general guarantees.

use tmpl_text::{
    abbrev, base32decode, base32encode, base64decode, base64encode, contains, has_prefix, initials,
    join, plural, rand_alpha_numeric, rand_numeric, replace, split, substring, trim, trim_all,
    trim_suffix, trunc, BindError, Value,
};

fn s(text: &str) -> Value {
    Value::Str(text.to_string())
}

fn i(n: i64) -> Value {
    Value::Int(n)
}

fn got_string(r: Result<Value, BindError>) -> String {
    match r.unwrap() {
        Value::Str(t) => t,
        other => panic!("expected a string value, got {:?}", other),
    }
}

#[test]
fn trim_is_idempotent_on_a_value() {
    let once = got_string(trim(&vec![s("\t  foo  bar \n ")]));
    let twice = got_string(trim(&vec![s(&once)]));
    assert_eq!(once, twice);
    assert_eq!(once, "foo  bar");
}

#[test]
fn base64_round_trip_restores_input() {
    let original = "héllo wörld ☃ / + =";
    let encoded = got_string(base64encode(&vec![s(original)]));
    assert_eq!(base64decode(&vec![s(&encoded)]).unwrap(), s(original));
}

#[test]
fn base32_round_trip_restores_input() {
    let original = "héllo wörld ☃";
    let encoded = got_string(base32encode(&vec![s(original)]));
    assert_eq!(base32decode(&vec![s(&encoded)]).unwrap(), s(original));
}

#[test]
fn round_trip_helpers_return_their_input() {
    assert_eq!(tmpl_text::base64_round_trip("any text at all ☃"), Ok("any text at all ☃".to_string()));
    assert_eq!(tmpl_text::base32_round_trip(""), Ok("".to_string()));
}

#[test]
fn dict_of_strings_converts_value_by_value() {
    let dict = Value::Dict(vec![("k".to_string(), s("v")), ("l".to_string(), s("w"))]);
    let converted = tmpl_text::value::conv_dict(&dict).unwrap();
    assert_eq!(
        converted,
        vec![("k".to_string(), "v".to_string()), ("l".to_string(), "w".to_string())]
    );
    let bad = Value::Dict(vec![("k".to_string(), i(3))]);
    assert!(tmpl_text::value::conv_dict(&bad).is_none());
}

#[test]
fn bool_conversion_takes_only_the_bool_variant() {
    assert_eq!(tmpl_text::value::conv_bool(&Value::Bool(true)), Some(true));
    assert_eq!(tmpl_text::value::conv_bool(&s("true")), None);
    assert_eq!(tmpl_text::value::conv_bool(&i(1)), None);
}

#[test]
fn base64decode_accepts_concatenated_padded_blocks() {
    // The decoder accepts concatenations of padded blocks, so this
    // succeeds even though the input is not a single canonical
    // encoding; the contract leaves the decoded value unspecified.
    let out = got_string(base64decode(&vec![s("AA==AA==")]));
    assert_eq!(out, "\u{0}\u{0}");
}

#[test]
fn base64decode_rejects_bad_input() {
    match base64decode(&vec![s("%%%not base64%%%")]) {
        Err(BindError::Domain(_)) => {},
        other => panic!("expected a domain error, got {:?}", other),
    }
}

#[test]
fn abbrev_never_exceeds_width_or_length() {
    let out = got_string(abbrev(&vec![i(7), s("a long sentence")]));
    assert_eq!(out, "a lo...");
    assert!(out.chars().count() <= 7);
    assert_eq!(abbrev(&vec![i(3), s("foobar")]).unwrap(), s("foobar"));
    assert_eq!(abbrev(&vec![i(10), s("foobar")]).unwrap(), s("foobar"));
}

#[test]
fn initials_of_two_words() {
    assert_eq!(initials(&vec![s("Matt Butcher")]).unwrap(), s("MB"));
}

#[test]
fn substring_clamps_and_falls_back() {
    assert_eq!(substring(&vec![i(-3), i(2), s("foobar")]).unwrap(), s("fo"));
    assert_eq!(substring(&vec![i(2), i(-1), s("foobar")]).unwrap(), s("obar"));
    assert_eq!(substring(&vec![i(0), i(99), s("foobar")]).unwrap(), s("foobar"));
}

#[test]
fn split_then_join_reconstructs() {
    let parts = match split(&vec![s("ab"), s("1ab2ab3")]).unwrap() {
        Value::Dict(entries) => entries,
        other => panic!("expected a dictionary, got {:?}", other),
    };
    assert_eq!(parts.len(), 3);
    assert_eq!(parts[0].0, "_0");
    assert_eq!(parts[1].0, "_1");
    assert_eq!(parts[2].0, "_2");
    let values: Vec<Value> = parts.into_iter().map(|e| e.1).collect();
    assert_eq!(join(&vec![s("ab"), Value::Array(values)]).unwrap(), s("1ab2ab3"));
}

#[test]
fn split_on_empty_separator() {
    let expected = Value::Dict(vec![
        ("_0".to_string(), s("")),
        ("_1".to_string(), s("a")),
        ("_2".to_string(), s("b")),
        ("_3".to_string(), s("")),
    ]);
    assert_eq!(split(&vec![s(""), s("ab")]).unwrap(), expected);
}

#[test]
fn join_renders_numbers_and_bools() {
    let list = Value::Array(vec![i(1), Value::Int(-5), Value::Uint(7), Value::Bool(true), Value::Nil]);
    assert_eq!(join(&vec![s(","), list]).unwrap(), s("1,-5,7,true,nil"));
}

#[test]
fn join_rejects_non_array() {
    match join(&vec![s(","), s("oops")]) {
        Err(BindError::Domain(m)) => assert_eq!(m, "second argument must be of type Array"),
        other => panic!("expected a domain error, got {:?}", other),
    }
}

#[test]
fn wrong_arity_is_reported() {
    match trim(&vec![s("a"), s("b")]) {
        Err(BindError::Arity { expected, got }) => {
            assert_eq!(expected, 1);
            assert_eq!(got, 2);
        },
        other => panic!("expected an arity error, got {:?}", other),
    }
}

#[test]
fn wrong_type_is_reported_with_its_position() {
    match abbrev(&vec![s("four"), s("foobar")]) {
        Err(BindError::Convert(pos)) => assert_eq!(pos, 0),
        other => panic!("expected a conversion error, got {:?}", other),
    }
    match contains(&vec![s("oo"), i(3)]) {
        Err(BindError::Convert(pos)) => assert_eq!(pos, 1),
        other => panic!("expected a conversion error, got {:?}", other),
    }
}

#[test]
fn failure_messages_name_the_problem() {
    let arity = BindError::Arity { expected: 1, got: 3 };
    assert_eq!(arity.message(), "wrong number of arguments: expected 1, got 3");
    assert_eq!(BindError::Convert(12).message(), "unable to convert argument 12");
    assert_eq!(BindError::Domain("bad input".to_string()).message(), "bad input");
}

#[test]
fn negative_count_does_not_convert() {
    match rand_numeric(&vec![i(-1)]) {
        Err(BindError::Convert(pos)) => assert_eq!(pos, 0),
        other => panic!("expected a conversion error, got {:?}", other),
    }
}

#[test]
fn rand_alpha_numeric_is_alphanumeric_of_exact_length() {
    let empty = got_string(rand_alpha_numeric(&vec![i(0)]));
    assert_eq!(empty, "");
    let out = got_string(rand_alpha_numeric(&vec![i(200)]));
    assert_eq!(out.chars().count(), 200);
    assert!(out.chars().all(|c| c.is_ascii_alphanumeric()));
}

#[test]
fn replace_with_empty_pattern_inserts_everywhere() {
    assert_eq!(replace(&vec![s(""), s("-"), s("ab")]).unwrap(), s("-a-b-"));
}

#[test]
fn replace_is_non_overlapping() {
    assert_eq!(replace(&vec![s("aa"), s("b"), s("aaa")]).unwrap(), s("ba"));
}

#[test]
fn trunc_out_of_range_leaves_input() {
    assert_eq!(trunc(&vec![i(-1), s("foobar")]).unwrap(), s("foobar"));
    assert_eq!(trunc(&vec![i(10), s("foobar")]).unwrap(), s("foobar"));
    assert_eq!(trunc(&vec![i(0), s("foobar")]).unwrap(), s(""));
}

#[test]
fn trim_suffix_removes_at_most_one() {
    assert_eq!(trim_suffix(&vec![s("bar"), s("foobarbar")]).unwrap(), s("foobar"));
    assert_eq!(trim_suffix(&vec![s("zap"), s("foobar")]).unwrap(), s("foobar"));
}

#[test]
fn trim_all_of_only_members_empties() {
    assert_eq!(trim_all(&vec![s("ab"), s("abba")]).unwrap(), s(""));
}

#[test]
fn contains_and_prefix_report_false() {
    assert_eq!(contains(&vec![s("xy"), s("foobar")]).unwrap(), Value::Bool(false));
    assert_eq!(has_prefix(&vec![s("bar"), s("foobar")]).unwrap(), Value::Bool(false));
}

#[test]
fn plural_accepts_unsigned_counts() {
    assert_eq!(plural(&vec![s("mouse"), s("mice"), Value::Uint(1)]).unwrap(), s("mouse"));
}
