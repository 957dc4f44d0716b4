//! Substring search and replacement: the boolean tests (`contains`,
//! `has_prefix`, `has_suffix`) and `replace`, together with the spec
//! functions that pin down where a pattern occurs in a string.

use vstd::prelude::*;

use crate::bind::{
    bad_three_strings, bad_two_strings, string_arg, three_strings, two_strings,
};
use crate::chars::{chars_to_string, str_to_chars};
use crate::value::{BindError, Value};

verus! {

/// Whether `pat` occurs in `s` at position `i`.
pub open spec fn match_at(s: Seq<char>, pat: Seq<char>, i: int) -> bool {
    0 <= i && i + pat.len() <= s.len() && s.subrange(i, i + pat.len()) == pat
}

/// Whether `pat` occurs anywhere in `s`.
pub open spec fn contains_spec(s: Seq<char>, pat: Seq<char>) -> bool {
    exists|i: int| match_at(s, pat, i)
}

/// Whether `s` starts with `pat`.
pub open spec fn starts_with_spec(s: Seq<char>, pat: Seq<char>) -> bool {
    match_at(s, pat, 0)
}

/// Whether `s` ends with `pat`.
pub open spec fn ends_with_spec(s: Seq<char>, pat: Seq<char>) -> bool {
    match_at(s, pat, s.len() - pat.len())
}

/// The position of the first occurrence of `pat` in `s`, if any.
pub open spec fn find_idx(s: Seq<char>, pat: Seq<char>) -> Option<int>
    decreases s.len(),
{
    if match_at(s, pat, 0) {
        Some(0)
    } else if s.len() == 0 {
        None
    } else {
        match find_idx(s.skip(1), pat) {
            Some(j) => Some(j + 1),
            None => None,
        }
    }
}

/// `find_idx` returns the least match position, and `None` exactly
/// when there is no match.
pub proof fn lemma_find_idx(s: Seq<char>, pat: Seq<char>)
    ensures
        match find_idx(s, pat) {
            Some(i) => match_at(s, pat, i) && (forall|j: int| 0 <= j < i ==> !match_at(s, pat, j)),
            None => forall|j: int| !match_at(s, pat, j),
        },
    decreases s.len(),
{
    if match_at(s, pat, 0) {
    } else if s.len() == 0 {
        assert forall|j: int| !match_at(s, pat, j) by {
            if match_at(s, pat, j) {
                assert(j == 0);
                assert(match_at(s, pat, 0));
            }
        }
    } else {
        lemma_find_idx(s.skip(1), pat);
        assert forall|j: int| 1 <= j implies (match_at(s, pat, j) <==> match_at(
            s.skip(1),
            pat,
            j - 1,
        )) by {
            if 0 <= j - 1 && j - 1 + pat.len() <= s.skip(1).len() {
                assert(s.skip(1).subrange(j - 1, j - 1 + pat.len()) =~= s.subrange(
                    j,
                    j + pat.len(),
                ));
            }
        }
    }
}

/// Decides whether `pat` occurs in `s` at position `i`.
#[verifier::loop_isolation(false)]
pub fn match_at_exec(s: &Vec<char>, pat: &Vec<char>, i: usize) -> (r: bool)
    requires
        i + pat@.len() <= s@.len(),
    ensures
        r == match_at(s@, pat@, i as int),
{
    let n = s.len();
    let mut k: usize = 0;
    while k < pat.len()
        invariant
            0 <= k <= pat@.len(),
            n == s@.len(),
            forall|t: int| 0 <= t < k ==> s@[i + t] == pat@[t],
        decreases pat@.len() - k,
    {
        if s[i + k] != pat[k] {
            proof {
                assert(s@.subrange(i as int, i + pat@.len())[k as int] == s@[i + k]);
            }
            return false;
        }
        k = k + 1;
    }
    proof {
        assert(s@.subrange(i as int, i + pat@.len()) =~= pat@);
    }
    true
}

/// Finds the first occurrence of `pat` in `s`.
#[verifier::loop_isolation(false)]
pub fn find_in(s: &Vec<char>, pat: &Vec<char>) -> (r: Option<usize>)
    ensures
        r matches Some(i) ==> find_idx(s@, pat@) == Some(i as int),
        r is None ==> find_idx(s@, pat@) is None,
{
    proof {
        lemma_find_idx(s@, pat@);
    }
    if pat.len() > s.len() {
        return None;
    }
    let n = s.len() - pat.len();
    let mut i: usize = 0;
    loop
        invariant
            0 <= i <= n,
            n == s@.len() - pat@.len(),
            forall|j: int| 0 <= j < i ==> !match_at(s@, pat@, j),
        decreases n - i,
    {
        if match_at_exec(s, pat, i) {
            return Some(i);
        }
        if i == n {
            proof {
                assert forall|j: int| !match_at(s@, pat@, j) by {
                    if match_at(s@, pat@, j) {
                        assert(0 <= j <= n);
                    }
                }
            }
            return None;
        }
        i = i + 1;
    }
}

/// `s` with every non-overlapping occurrence of `pat`, found left to
/// right, replaced by `sub`. An empty pattern matches at every
/// position, including both ends.
pub open spec fn replace_spec(s: Seq<char>, pat: Seq<char>, sub: Seq<char>) -> Seq<char>
    decreases s.len(),
{
    if pat.len() == 0 {
        if s.len() == 0 {
            sub
        } else {
            sub + seq![s[0]] + replace_spec(s.skip(1), pat, sub)
        }
    } else if s.len() < pat.len() {
        s
    } else if match_at(s, pat, 0) {
        sub + replace_spec(s.skip(pat.len() as int), pat, sub)
    } else {
        seq![s[0]] + replace_spec(s.skip(1), pat, sub)
    }
}

/// Appends all characters of `add` to `out`.
#[verifier::loop_isolation(false)]
pub fn push_seq(out: &mut Vec<char>, add: &Vec<char>)
    ensures
        final(out)@ == old(out)@ + add@,
{
    let mut k: usize = 0;
    while k < add.len()
        invariant
            0 <= k <= add@.len(),
            out@ =~= old(out)@ + add@.take(k as int),
        decreases add@.len() - k,
    {
        out.push(add[k]);
        proof {
            assert(out@ =~= old(out)@ + add@.take(k + 1 as int));
        }
        k = k + 1;
    }
    proof {
        assert(add@.take(add@.len() as int) =~= add@);
        assert(out@ =~= old(out)@ + add@);
    }
}

/// Replaces every non-overlapping occurrence of `pat` in `s` by `sub`.
#[verifier::loop_isolation(false)]
pub fn replace_chars(s: &Vec<char>, pat: &Vec<char>, sub: &Vec<char>) -> (r: Vec<char>)
    ensures
        r@ == replace_spec(s@, pat@, sub@),
{
    let mut out: Vec<char> = Vec::new();
    let mut i: usize = 0;
    proof {
        assert(s@.skip(0) =~= s@);
    }
    if pat.len() == 0 {
        while i < s.len()
            invariant
                0 <= i <= s@.len(),
                replace_spec(s@, pat@, sub@) =~= out@ + replace_spec(
                    s@.skip(i as int),
                    pat@,
                    sub@,
                ),
            decreases s@.len() - i,
        {
            push_seq(&mut out, sub);
            out.push(s[i]);
            proof {
                assert(s@.skip(i as int)[0] == s@[i as int]);
                assert(s@.skip(i as int).skip(1) =~= s@.skip(i + 1 as int));
            }
            i = i + 1;
        }
        push_seq(&mut out, sub);
        proof {
            assert(s@.skip(s@.len() as int) =~= Seq::<char>::empty());
        }
        out
    } else {
        while i < s.len()
            invariant
                0 <= i <= s@.len(),
                replace_spec(s@, pat@, sub@) =~= out@ + replace_spec(
                    s@.skip(i as int),
                    pat@,
                    sub@,
                ),
            decreases s@.len() - i,
        {
            let matched = if pat.len() <= s.len() - i {
                match_at_exec(s, pat, i)
            } else {
                false
            };
            if matched {
                push_seq(&mut out, sub);
                proof {
                    assert(s@.skip(i as int).subrange(0, pat@.len() as int) =~= s@.subrange(
                        i as int,
                        i + pat@.len(),
                    ));
                    assert(match_at(s@.skip(i as int), pat@, 0));
                    assert(s@.skip(i as int).skip(pat@.len() as int) =~= s@.skip(
                        i + pat@.len(),
                    ));
                }
                i = i + pat.len();
            } else {
                out.push(s[i]);
                proof {
                    if i + pat@.len() <= s@.len() {
                        assert(s@.skip(i as int).subrange(0, pat@.len() as int) =~= s@.subrange(
                            i as int,
                            i + pat@.len(),
                        ));
                        assert(!match_at(s@.skip(i as int), pat@, 0));
                    }
                    assert(s@.skip(i as int)[0] == s@[i as int]);
                    assert(s@.skip(i as int).skip(1) =~= s@.skip(i + 1 as int));
                }
                i = i + 1;
            }
        }
        proof {
            assert(s@.skip(s@.len() as int) =~= Seq::<char>::empty());
        }
        out
    }
}

/// Whether the string given second contains the string given first.
pub fn contains(args: &Vec<Value>) -> (r: Result<Value, BindError>)
    ensures
        bad_two_strings(args@) matches Some(e) ==> r == Err::<Value, BindError>(e),
        bad_two_strings(args@) is None ==> r == Ok::<Value, BindError>(
            Value::Bool(contains_spec(string_arg(args@[1]), string_arg(args@[0]))),
        ),
{
    let (sub, s) = match two_strings(args) {
        Ok(p) => p,
        Err(e) => {
            return Err(e);
        },
    };
    let sv = str_to_chars(s.as_str());
    let pv = str_to_chars(sub.as_str());
    proof {
        lemma_find_idx(sv@, pv@);
    }
    let found = match find_in(&sv, &pv) {
        Some(_) => true,
        None => false,
    };
    Ok(Value::Bool(found))
}

/// Whether the string given second starts with the string given first.
pub fn has_prefix(args: &Vec<Value>) -> (r: Result<Value, BindError>)
    ensures
        bad_two_strings(args@) matches Some(e) ==> r == Err::<Value, BindError>(e),
        bad_two_strings(args@) is None ==> r == Ok::<Value, BindError>(
            Value::Bool(starts_with_spec(string_arg(args@[1]), string_arg(args@[0]))),
        ),
{
    let (pre, s) = match two_strings(args) {
        Ok(p) => p,
        Err(e) => {
            return Err(e);
        },
    };
    let sv = str_to_chars(s.as_str());
    let pv = str_to_chars(pre.as_str());
    let found = if pv.len() <= sv.len() {
        match_at_exec(&sv, &pv, 0)
    } else {
        false
    };
    Ok(Value::Bool(found))
}

/// Whether the string given second ends with the string given first.
pub fn has_suffix(args: &Vec<Value>) -> (r: Result<Value, BindError>)
    ensures
        bad_two_strings(args@) matches Some(e) ==> r == Err::<Value, BindError>(e),
        bad_two_strings(args@) is None ==> r == Ok::<Value, BindError>(
            Value::Bool(ends_with_spec(string_arg(args@[1]), string_arg(args@[0]))),
        ),
{
    let (suf, s) = match two_strings(args) {
        Ok(p) => p,
        Err(e) => {
            return Err(e);
        },
    };
    let sv = str_to_chars(s.as_str());
    let pv = str_to_chars(suf.as_str());
    let found = if pv.len() <= sv.len() {
        match_at_exec(&sv, &pv, sv.len() - pv.len())
    } else {
        false
    };
    Ok(Value::Bool(found))
}

/// Replaces, in the string given third, every occurrence of the first
/// string by the second.
pub fn replace(args: &Vec<Value>) -> (r: Result<Value, BindError>)
    ensures
        bad_three_strings(args@) matches Some(e) ==> r == Err::<Value, BindError>(e),
        bad_three_strings(args@) is None ==> (r matches Ok(v) && v matches Value::Str(t) && t@
            == replace_spec(string_arg(args@[2]), string_arg(args@[0]), string_arg(args@[1]))),
{
    let (from, to, s) = match three_strings(args) {
        Ok(p) => p,
        Err(e) => {
            return Err(e);
        },
    };
    let sv = str_to_chars(s.as_str());
    let fv = str_to_chars(from.as_str());
    let tv = str_to_chars(to.as_str());
    let out = replace_chars(&sv, &fv, &tv);
    Ok(Value::Str(chars_to_string(&out)))
}

} // verus!
