//! The text helpers called through the binding layer, on their
//! documented example inputs.

use tmpl_text::{
    abbrev, abbrevboth, base32decode, base32encode, base64decode, base64encode, contains,
    has_prefix, has_suffix, initials, join, plural, rand_alpha, rand_alpha_numeric, rand_ascii,
    rand_numeric, replace, split, substring, trim, trim_all, trim_prefix, trim_suffix, trunc,
    untitle, Value,
};

fn s(text: &str) -> Value {
    Value::Str(text.to_string())
}

fn i(n: i64) -> Value {
    Value::Int(n)
}

fn got_string(r: Result<Value, tmpl_text::BindError>) -> String {
    match r.unwrap() {
        Value::Str(t) => t,
        other => panic!("expected a string value, got {:?}", other),
    }
}

#[test]
fn test_base64encode() {
    assert_eq!(base64encode(&vec![s("Hello World!")]).unwrap(), s("SGVsbG8gV29ybGQh"));
}

#[test]
fn test_base64decode() {
    assert_eq!(base64decode(&vec![s("SGVsbG8gV29ybGQh")]).unwrap(), s("Hello World!"));
}

#[test]
fn test_base32encode() {
    assert_eq!(base32encode(&vec![s("Hello World!")]).unwrap(), s("JBSWY3DPEBLW64TMMQQQ===="));
}

#[test]
fn test_base32decode() {
    assert_eq!(base32decode(&vec![s("JBSWY3DPEBLW64TMMQQQ====")]).unwrap(), s("Hello World!"));
}

#[test]
fn test_abbrv() {
    assert_eq!(abbrev(&vec![i(4), s("foobar")]).unwrap(), s("f..."));
}

#[test]
fn test_abbrvboth() {
    assert_eq!(abbrevboth(&vec![i(5), i(7), s("foobarfoobar")]).unwrap(), s("...r..."));
    assert_eq!(abbrevboth(&vec![i(4), i(7), s("foobarfoobar")]).unwrap(), s("foob..."));
    assert_eq!(abbrevboth(&vec![i(6), i(9), s("foobarfoobar")]).unwrap(), s("...foobar"));
    assert_eq!(abbrevboth(&vec![i(5), i(7), s("foobar")]).unwrap(), s("foobar"));
}

#[test]
fn test_initials() {
    assert_eq!(initials(&vec![s("")]).unwrap(), s(""));
    assert_eq!(initials(&vec![s(" ")]).unwrap(), s(""));
    assert_eq!(initials(&vec![s("Foo Bar")]).unwrap(), s("FB"));
}

#[test]
fn test_rand_alpha_numeric() {
    let out = got_string(rand_alpha_numeric(&vec![i(20)]));
    assert!(out.chars().count() == 20);
}

#[test]
fn test_rand_alpha() {
    let out = got_string(rand_alpha(&vec![i(20)]));
    assert!(out.len() == 20);
}

#[test]
fn test_rand_ascii() {
    let out = got_string(rand_ascii(&vec![i(20)]));
    assert!(out.len() == 20);
}

#[test]
fn test_rand_numeric() {
    let out = got_string(rand_numeric(&vec![i(10)]));
    assert!(out.len() == 10);
    assert!(out.parse::<i64>().is_ok());
}

#[test]
fn test_untitle() {
    assert_eq!(untitle(&vec![s("")]).unwrap(), s(""));
    assert_eq!(untitle(&vec![s(" ")]).unwrap(), s(" "));
    assert_eq!(untitle(&vec![s("Foo Bar")]).unwrap(), s("foo bar"));
    assert_eq!(untitle(&vec![s("FOO BAR")]).unwrap(), s("fOO bAR"));
    assert_eq!(untitle(&vec![s("  F  B  ")]).unwrap(), s("  f  b  "));
}

#[test]
fn test_replace() {
    assert_eq!(replace(&vec![s("World"), s("Doom"), s("Hello World!")]).unwrap(), s("Hello Doom!"));
}

#[test]
fn test_plural() {
    assert_eq!(plural(&vec![s("mouse"), s("mice"), i(1)]).unwrap(), s("mouse"));
    assert_eq!(plural(&vec![s("mouse"), s("mice"), i(10)]).unwrap(), s("mice"));
}

#[test]
fn test_trunc() {
    assert_eq!(trunc(&vec![i(5), s("foobar")]).unwrap(), s("fooba"));
}

#[test]
fn test_join() {
    let list = Value::Array(vec![s("hello"), s("world")]);
    assert_eq!(join(&vec![s("_"), list]).unwrap(), s("hello_world"));
}

#[test]
fn test_split() {
    let expected = Value::Dict(vec![
        ("_0".to_string(), s("foo")),
        ("_1".to_string(), s("bar")),
    ]);
    assert_eq!(split(&vec![s(" "), s("foo bar")]).unwrap(), expected);
}

#[test]
fn test_substring() {
    assert_eq!(substring(&vec![i(0), i(0), s("")]).unwrap(), s(""));
    assert_eq!(substring(&vec![i(1), i(5), s("foobar")]).unwrap(), s("ooba"));
    assert_eq!(substring(&vec![i(3), i(2), s("foobar")]).unwrap(), s("foobar"));
    assert_eq!(substring(&vec![i(8), i(9), s("foobar")]).unwrap(), s("foobar"));
}

#[test]
fn test_contains() {
    assert_eq!(contains(&vec![s("oo"), s("foobar")]).unwrap(), Value::Bool(true));
}

#[test]
fn test_has_suffix() {
    assert_eq!(has_suffix(&vec![s("bar"), s("foobar")]).unwrap(), Value::Bool(true));
}

#[test]
fn test_has_prefix() {
    assert_eq!(has_prefix(&vec![s("foo"), s("foobar")]).unwrap(), Value::Bool(true));
}

#[test]
fn test_trim() {
    assert_eq!(trim(&vec![s("  foobar ")]).unwrap(), s("foobar"));
}

#[test]
fn test_trim_all() {
    assert_eq!(trim_all(&vec![s(" fr"), s("  foobar ")]).unwrap(), s("ooba"));
}

#[test]
fn test_trim_suffix() {
    assert_eq!(trim_suffix(&vec![s("bar"), s("foobar")]).unwrap(), s("foo"));
}

#[test]
fn test_trim_prefix() {
    assert_eq!(trim_prefix(&vec![s("foo"), s("foobar")]).unwrap(), s("bar"));
}
