//! Trimming: whitespace from both ends, a caller-given character set
//! from both ends, and a single prefix or suffix occurrence.

use vstd::prelude::*;

use crate::bind::{bad_one_string, bad_two_strings, one_string, string_arg, two_strings};
use crate::chars::{chars_to_string, is_space, is_space_char, str_to_chars};
use crate::search::{match_at_exec, starts_with_spec};
use crate::value::{BindError, Value};

verus! {

/// How many leading characters of `s` satisfy `p`.
pub open spec fn lead_count(s: Seq<char>, p: spec_fn(char) -> bool) -> int
    decreases s.len(),
{
    if s.len() == 0 || !p(s[0]) {
        0
    } else {
        1 + lead_count(s.skip(1), p)
    }
}

/// How many trailing characters of `s` satisfy `p`.
pub open spec fn trail_count(s: Seq<char>, p: spec_fn(char) -> bool) -> int
    decreases s.len(),
{
    if s.len() == 0 || !p(s.last()) {
        0
    } else {
        1 + trail_count(s.drop_last(), p)
    }
}

/// `s` without its longest leading and trailing runs of characters
/// satisfying `p`.
pub open spec fn trim_by(s: Seq<char>, p: spec_fn(char) -> bool) -> Seq<char> {
    let rest = s.skip(lead_count(s, p));
    rest.take(rest.len() - trail_count(rest, p))
}

/// The whitespace predicate as a first-class spec function.
pub open spec fn space_pred() -> spec_fn(char) -> bool {
    |c: char| is_space_char(c)
}

/// Membership in a character set as a first-class spec function.
pub open spec fn member_pred(set: Seq<char>) -> spec_fn(char) -> bool {
    |c: char| set.contains(c)
}

/// `s` without leading and trailing whitespace.
pub open spec fn trim_spaces_spec(s: Seq<char>) -> Seq<char> {
    trim_by(s, space_pred())
}

/// `s` without leading and trailing characters that are members of
/// `set`.
pub open spec fn trim_set_spec(s: Seq<char>, set: Seq<char>) -> Seq<char> {
    trim_by(s, member_pred(set))
}

/// Bounds and boundary facts for `lead_count`.
pub proof fn lemma_lead_count_bounds(s: Seq<char>, p: spec_fn(char) -> bool)
    ensures
        0 <= lead_count(s, p) <= s.len(),
        forall|j: int| 0 <= j < lead_count(s, p) ==> p(s[j]),
        lead_count(s, p) < s.len() ==> !p(s[lead_count(s, p)]),
    decreases s.len(),
{
    if s.len() == 0 || !p(s[0]) {
    } else {
        lemma_lead_count_bounds(s.skip(1), p);
        assert forall|j: int| 0 <= j < lead_count(s, p) implies p(s[j]) by {
            if j >= 1 {
                assert(s.skip(1)[j - 1] == s[j]);
            }
        }
        if lead_count(s, p) < s.len() {
            assert(s.skip(1)[lead_count(s, p) - 1] == s[lead_count(s, p)]);
        }
    }
}

/// `lead_count` is the unique boundary: if everything before `k`
/// satisfies `p` and position `k` (if inside) does not, the count is
/// `k`.
pub proof fn lemma_lead_count_is(s: Seq<char>, p: spec_fn(char) -> bool, k: int)
    requires
        0 <= k <= s.len(),
        forall|j: int| 0 <= j < k ==> p(s[j]),
        k < s.len() ==> !p(s[k]),
    ensures
        lead_count(s, p) == k,
{
    lemma_lead_count_bounds(s, p);
    let l = lead_count(s, p);
    if l < k {
        assert(p(s[l]));
    }
    if k < l {
        assert(p(s[k]));
    }
}

/// Bounds and boundary facts for `trail_count`.
pub proof fn lemma_trail_count_bounds(s: Seq<char>, p: spec_fn(char) -> bool)
    ensures
        0 <= trail_count(s, p) <= s.len(),
        forall|j: int| s.len() - trail_count(s, p) <= j < s.len() ==> p(s[j]),
        trail_count(s, p) < s.len() ==> !p(s[s.len() - 1 - trail_count(s, p)]),
    decreases s.len(),
{
    if s.len() == 0 || !p(s.last()) {
    } else {
        lemma_trail_count_bounds(s.drop_last(), p);
        assert forall|j: int| s.len() - trail_count(s, p) <= j < s.len() implies p(s[j]) by {
            if j < s.len() - 1 {
                assert(s.drop_last()[j] == s[j]);
            }
        }
        if trail_count(s, p) < s.len() {
            assert(s.drop_last()[s.len() - 2 - (trail_count(s, p) - 1)] == s[s.len() - 1
                - trail_count(s, p)]);
        }
    }
}

/// `trail_count` is the unique boundary from the right.
pub proof fn lemma_trail_count_is(s: Seq<char>, p: spec_fn(char) -> bool, k: int)
    requires
        0 <= k <= s.len(),
        forall|j: int| s.len() - k <= j < s.len() ==> p(s[j]),
        k < s.len() ==> !p(s[s.len() - 1 - k]),
    ensures
        trail_count(s, p) == k,
{
    lemma_trail_count_bounds(s, p);
    let t = trail_count(s, p);
    if t < k {
        assert(p(s[s.len() - 1 - t]));
    }
    if k < t {
        assert(p(s[s.len() - 1 - k]));
    }
}

/// Trimming is idempotent: trimming an already trimmed string changes
/// nothing.
pub proof fn lemma_trim_by_idempotent(s: Seq<char>, p: spec_fn(char) -> bool)
    ensures
        trim_by(trim_by(s, p), p) == trim_by(s, p),
{
    lemma_lead_count_bounds(s, p);
    let l = lead_count(s, p);
    let u = s.skip(l);
    lemma_trail_count_bounds(u, p);
    let t = trail_count(u, p);
    let r = u.take(u.len() - t);
    assert(r == trim_by(s, p));
    if r.len() > 0 {
        assert(r[0] == u[0]);
        assert(u[0] == s[l]);
        assert(!p(r[0]));
        assert(r[r.len() - 1] == u[u.len() - 1 - t]);
        assert(!p(r[r.len() - 1]));
    }
    lemma_lead_count_is(r, p, 0);
    lemma_trail_count_is(r, p, 0);
    assert(trim_by(r, p) =~= r);
}

/// Trimming whitespace is idempotent.
pub proof fn lemma_trim_idempotent(s: Seq<char>)
    ensures
        trim_spaces_spec(trim_spaces_spec(s)) == trim_spaces_spec(s),
{
    lemma_trim_by_idempotent(s, space_pred());
}

/// Trimming a character set is idempotent.
pub proof fn lemma_trim_set_idempotent(s: Seq<char>, set: Seq<char>)
    ensures
        trim_set_spec(trim_set_spec(s, set), set) == trim_set_spec(s, set),
{
    lemma_trim_by_idempotent(s, member_pred(set));
}

/// Copies the characters of `s` between `from` and `to`.
#[verifier::loop_isolation(false)]
pub fn copy_range(s: &Vec<char>, from: usize, to: usize) -> (r: Vec<char>)
    requires
        0 <= from <= to <= s@.len(),
    ensures
        r@ == s@.subrange(from as int, to as int),
{
    let mut r: Vec<char> = Vec::new();
    let mut i: usize = from;
    while i < to
        invariant
            from <= i <= to,
            r@ =~= s@.subrange(from as int, i as int),
        decreases to - i,
    {
        r.push(s[i]);
        proof {
            assert(r@ =~= s@.subrange(from as int, i + 1 as int));
        }
        i = i + 1;
    }
    r
}

/// Removes leading and trailing whitespace.
#[verifier::loop_isolation(false)]
pub fn trim_space_chars(s: &Vec<char>) -> (r: Vec<char>)
    ensures
        r@ == trim_spaces_spec(s@),
{
    let ghost p = space_pred();
    let n = s.len();
    let mut start: usize = 0;
    loop
        invariant
            0 <= start <= n,
            n == s@.len(),
            forall|j: int| 0 <= j < start ==> p(s@[j]),
        decreases n - start,
    {
        if start == n {
            break ;
        }
        if !is_space(s[start]) {
            break ;
        }
        start = start + 1;
    }
    proof {
        lemma_lead_count_is(s@, p, start as int);
    }
    let mut end: usize = n;
    loop
        invariant
            start <= end <= n,
            forall|j: int| end <= j < n ==> p(s@[j]),
        decreases end,
    {
        if end == start {
            break ;
        }
        if !is_space(s[end - 1]) {
            break ;
        }
        end = end - 1;
    }
    let ghost u = s@.skip(start as int);
    proof {
        assert forall|j: int| u.len() - (n - end) <= j < u.len() implies p(u[j]) by {
            assert(u[j] == s@[j + start]);
        }
        if end > start {
            assert(u[u.len() - 1 - (n - end)] == s@[end - 1]);
        }
        lemma_trail_count_is(u, p, n - end);
        assert(u.take(u.len() - (n - end)) =~= s@.subrange(start as int, end as int));
    }
    copy_range(s, start, end)
}

/// Removes leading and trailing characters that are members of `set`.
#[verifier::loop_isolation(false)]
pub fn trim_set_chars(s: &Vec<char>, set: &Vec<char>) -> (r: Vec<char>)
    ensures
        r@ == trim_set_spec(s@, set@),
{
    let ghost p = member_pred(set@);
    let n = s.len();
    let mut start: usize = 0;
    loop
        invariant
            0 <= start <= n,
            n == s@.len(),
            forall|j: int| 0 <= j < start ==> p(s@[j]),
        decreases n - start,
    {
        if start == n {
            break ;
        }
        let inside = vec_has_char(set, s[start]);
        if !inside {
            break ;
        }
        start = start + 1;
    }
    proof {
        lemma_lead_count_is(s@, p, start as int);
    }
    let mut end: usize = n;
    loop
        invariant
            start <= end <= n,
            forall|j: int| end <= j < n ==> p(s@[j]),
        decreases end,
    {
        if end == start {
            break ;
        }
        let inside = vec_has_char(set, s[end - 1]);
        if !inside {
            break ;
        }
        end = end - 1;
    }
    let ghost u = s@.skip(start as int);
    proof {
        assert forall|j: int| u.len() - (n - end) <= j < u.len() implies p(u[j]) by {
            assert(u[j] == s@[j + start]);
        }
        if end > start {
            assert(u[u.len() - 1 - (n - end)] == s@[end - 1]);
        }
        lemma_trail_count_is(u, p, n - end);
        assert(u.take(u.len() - (n - end)) =~= s@.subrange(start as int, end as int));
    }
    copy_range(s, start, end)
}

/// Decides membership of `c` in `set`.
#[verifier::loop_isolation(false)]
pub fn vec_has_char(set: &Vec<char>, c: char) -> (r: bool)
    ensures
        r == set@.contains(c),
{
    let mut i: usize = 0;
    while i < set.len()
        invariant
            0 <= i <= set@.len(),
            forall|j: int| 0 <= j < i ==> set@[j] != c,
        decreases set@.len() - i,
    {
        if set[i] == c {
            return true;
        }
        i = i + 1;
    }
    false
}

/// `s` without one leading occurrence of `pre`, if it is there.
pub open spec fn trim_prefix_spec(s: Seq<char>, pre: Seq<char>) -> Seq<char> {
    if starts_with_spec(s, pre) {
        s.skip(pre.len() as int)
    } else {
        s
    }
}

/// `s` without one trailing occurrence of `suf`, if it is there.
pub open spec fn trim_suffix_spec(s: Seq<char>, suf: Seq<char>) -> Seq<char> {
    if crate::search::ends_with_spec(s, suf) {
        s.take(s.len() - suf.len())
    } else {
        s
    }
}

/// Removes leading and trailing whitespace from its single string
/// argument.
pub fn trim(args: &Vec<Value>) -> (r: Result<Value, BindError>)
    ensures
        bad_one_string(args@) matches Some(e) ==> r == Err::<Value, BindError>(e),
        bad_one_string(args@) is None ==> (r matches Ok(v) && v matches Value::Str(t) && t@
            == trim_spaces_spec(string_arg(args@[0]))),
{
    let s = match one_string(args) {
        Ok(s) => s,
        Err(e) => {
            return Err(e);
        },
    };
    let sv = str_to_chars(s.as_str());
    let out = trim_space_chars(&sv);
    Ok(Value::Str(chars_to_string(&out)))
}

/// Removes, from both ends of the string given second, the characters
/// that occur in the string given first.
pub fn trim_all(args: &Vec<Value>) -> (r: Result<Value, BindError>)
    ensures
        bad_two_strings(args@) matches Some(e) ==> r == Err::<Value, BindError>(e),
        bad_two_strings(args@) is None ==> (r matches Ok(v) && v matches Value::Str(t) && t@
            == trim_set_spec(string_arg(args@[1]), string_arg(args@[0]))),
{
    let (set, s) = match two_strings(args) {
        Ok(p) => p,
        Err(e) => {
            return Err(e);
        },
    };
    let sv = str_to_chars(s.as_str());
    let setv = str_to_chars(set.as_str());
    let out = trim_set_chars(&sv, &setv);
    Ok(Value::Str(chars_to_string(&out)))
}

/// Removes at most one occurrence of the prefix given first from the
/// string given second.
pub fn trim_prefix(args: &Vec<Value>) -> (r: Result<Value, BindError>)
    ensures
        bad_two_strings(args@) matches Some(e) ==> r == Err::<Value, BindError>(e),
        bad_two_strings(args@) is None ==> (r matches Ok(v) && v matches Value::Str(t) && t@
            == trim_prefix_spec(string_arg(args@[1]), string_arg(args@[0]))),
{
    let (pre, s) = match two_strings(args) {
        Ok(p) => p,
        Err(e) => {
            return Err(e);
        },
    };
    let sv = str_to_chars(s.as_str());
    let pv = str_to_chars(pre.as_str());
    if pv.len() <= sv.len() && match_at_exec(&sv, &pv, 0) {
        let out = copy_range(&sv, pv.len(), sv.len());
        Ok(Value::Str(chars_to_string(&out)))
    } else {
        Ok(Value::Str(s))
    }
}

/// Removes at most one occurrence of the suffix given first from the
/// string given second.
pub fn trim_suffix(args: &Vec<Value>) -> (r: Result<Value, BindError>)
    ensures
        bad_two_strings(args@) matches Some(e) ==> r == Err::<Value, BindError>(e),
        bad_two_strings(args@) is None ==> (r matches Ok(v) && v matches Value::Str(t) && t@
            == trim_suffix_spec(string_arg(args@[1]), string_arg(args@[0]))),
{
    let (suf, s) = match two_strings(args) {
        Ok(p) => p,
        Err(e) => {
            return Err(e);
        },
    };
    let sv = str_to_chars(s.as_str());
    let pv = str_to_chars(suf.as_str());
    if pv.len() <= sv.len() && match_at_exec(&sv, &pv, sv.len() - pv.len()) {
        let out = copy_range(&sv, 0, sv.len() - pv.len());
        Ok(Value::Str(chars_to_string(&out)))
    } else {
        Ok(Value::Str(s))
    }
}

} // verus!
