//! `split` and `join`: splitting a string on a separator into a
//! dictionary keyed `_0`, `_1`, ... and joining the string forms of an
//! array's elements with a separator. Splitting and then joining with
//! the same separator reconstructs the string.

use vstd::prelude::*;

use crate::bind::{arity_error, string_arg, two_strings};
use crate::chars::{chars_to_string, str_to_chars};
use crate::numtext::{dec_str, int_str, i64_to_string, u64_to_string};
use crate::search::{find_idx, find_in, lemma_find_idx};
use crate::trims::copy_range;
use crate::value::{conv_string, BindError, Value};

verus! {

/// The string form of a scalar template value; arrays and
/// dictionaries have none. This is a deliberate restriction: template
/// engines that render a nested array or map at all do so through a
/// debug dump of the value (unordered for maps), and that dump is not
/// reproduced here — `join` rejects such elements instead.
pub open spec fn render_spec(v: Value) -> Option<Seq<char>> {
    match v {
        Value::Nil => Some("nil"@),
        Value::Bool(b) => Some(
            if b {
                "true"@
            } else {
                "false"@
            },
        ),
        Value::Int(i) => Some(int_str(i as int)),
        Value::Uint(u) => Some(dec_str(u as int)),
        Value::Str(s) => Some(s@),
        _ => None::<Seq<char>>,
    }
}

/// The string form of a value, empty when it has none.
pub open spec fn render_of(v: Value) -> Seq<char> {
    match render_spec(v) {
        Some(t) => t,
        None => Seq::<char>::empty(),
    }
}

/// Whether every element of the sequence has a string form.
pub open spec fn all_renderable(elems: Seq<Value>) -> bool {
    forall|i: int| 0 <= i < elems.len() ==> (#[trigger] render_spec(elems[i])) is Some
}

/// The string forms of a sequence of values.
pub open spec fn rendered_views(elems: Seq<Value>) -> Seq<Seq<char>> {
    elems.map_values(|v: Value| render_of(v))
}

/// The views of a vector of strings.
pub open spec fn views_of(ss: Seq<String>) -> Seq<Seq<char>> {
    ss.map_values(|t: String| t@)
}

/// Renders the string form of a scalar value.
pub fn render(v: &Value) -> (r: Option<String>)
    ensures
        match r {
            Some(t) => render_spec(*v) == Some(t@),
            None => render_spec(*v) is None,
        },
{
    match v {
        Value::Nil => Some("nil".to_owned()),
        Value::Bool(b) => if *b {
            Some("true".to_owned())
        } else {
            Some("false".to_owned())
        },
        Value::Int(i) => Some(i64_to_string(*i)),
        Value::Uint(u) => Some(u64_to_string(*u)),
        Value::Str(s) => Some(s.clone()),
        _ => None,
    }
}

/// The pieces joined with `sep` between consecutive pieces.
pub open spec fn join_spec(parts: Seq<Seq<char>>, sep: Seq<char>) -> Seq<char>
    decreases parts.len(),
{
    if parts.len() == 0 {
        Seq::<char>::empty()
    } else if parts.len() == 1 {
        parts[0]
    } else {
        parts[0] + sep + join_spec(parts.skip(1), sep)
    }
}

/// Appending one more piece appends one separator and the piece.
pub proof fn lemma_join_push(parts: Seq<Seq<char>>, sep: Seq<char>, x: Seq<char>)
    requires
        parts.len() >= 1,
    ensures
        join_spec(parts.push(x), sep) == join_spec(parts, sep) + sep + x,
    decreases parts.len(),
{
    if parts.len() == 1 {
        assert(parts.push(x).skip(1) =~= seq![x]);
        assert(join_spec(seq![x], sep) == x);
        assert(join_spec(parts.push(x), sep) =~= parts[0] + sep + x);
    } else {
        lemma_join_push(parts.skip(1), sep, x);
        assert(parts.push(x).skip(1) =~= parts.skip(1).push(x));
        assert(join_spec(parts.push(x), sep) =~= join_spec(parts, sep) + sep + x);
    }
}

/// Joins the strings of `parts` with `sep` between them.
#[verifier::loop_isolation(false)]
pub fn join_strings(parts: &Vec<String>, sep: &str) -> (r: String)
    ensures
        r@ == join_spec(views_of(parts@), sep@),
{
    let mut out = String::new();
    if parts.len() == 0 {
        return out;
    }
    out.append(parts[0].as_str());
    let mut i: usize = 1;
    proof {
        assert(views_of(parts@.take(1)) =~= seq![parts@[0]@]);
    }
    while i < parts.len()
        invariant
            1 <= i <= parts@.len(),
            out@ =~= join_spec(views_of(parts@.take(i as int)), sep@),
        decreases parts@.len() - i,
    {
        out.append(sep);
        out.append(parts[i].as_str());
        proof {
            lemma_join_push(views_of(parts@.take(i as int)), sep@, parts@[i as int]@);
            assert(views_of(parts@.take(i + 1 as int)) =~= views_of(parts@.take(i as int)).push(
                parts@[i as int]@,
            ));
        }
        i = i + 1;
    }
    proof {
        assert(parts@.take(parts@.len() as int) =~= parts@);
    }
    out
}

/// Each character of `s` as a one-character piece.
pub open spec fn singletons(s: Seq<char>) -> Seq<Seq<char>>
{
    s.map_values(|c: char| seq![c])
}

/// The pieces of `s` split on every occurrence of `sep`, left to
/// right. An empty separator splits between every pair of characters
/// and at both ends.
pub open spec fn split_spec(s: Seq<char>, sep: Seq<char>) -> Seq<Seq<char>>
    decreases s.len(),
    via split_spec_decreases
{
    if sep.len() == 0 {
        seq![Seq::<char>::empty()] + singletons(s) + seq![Seq::<char>::empty()]
    } else {
        match find_idx(s, sep) {
            Some(i) => seq![s.take(i)] + split_spec(s.skip(i + sep.len()), sep),
            None => seq![s],
        }
    }
}

#[via_fn]
proof fn split_spec_decreases(s: Seq<char>, sep: Seq<char>) {
    if sep.len() > 0 {
        lemma_find_idx(s, sep);
    }
}

/// Splitting yields at least one piece.
pub proof fn lemma_split_nonempty(s: Seq<char>, sep: Seq<char>)
    ensures
        split_spec(s, sep).len() >= 1,
{
    if sep.len() > 0 {
        lemma_find_idx(s, sep);
    }
}

/// Joining the pieces of `singletons(s)` followed by an empty piece,
/// with an empty separator, yields `s`.
proof fn lemma_join_singletons(s: Seq<char>)
    ensures
        join_spec(singletons(s) + seq![Seq::<char>::empty()], Seq::<char>::empty()) == s,
    decreases s.len(),
{
    let sep = Seq::<char>::empty();
    let parts = singletons(s) + seq![Seq::<char>::empty()];
    if s.len() == 0 {
        assert(parts =~= seq![Seq::<char>::empty()]);
        assert(join_spec(parts, sep) =~= s);
    } else {
        lemma_join_singletons(s.skip(1));
        assert(parts.skip(1) =~= singletons(s.skip(1)) + seq![Seq::<char>::empty()]);
        assert(parts[0] == seq![s[0]]);
        assert(join_spec(parts, sep) =~= seq![s[0]] + s.skip(1));
        assert(seq![s[0]] + s.skip(1) =~= s);
    }
}

/// Splitting on a separator and joining the pieces with the same
/// separator reconstructs the original string, for every string and
/// every separator.
pub proof fn lemma_split_join(s: Seq<char>, sep: Seq<char>)
    ensures
        join_spec(split_spec(s, sep), sep) == s,
    decreases s.len(),
{
    if sep.len() == 0 {
        lemma_join_singletons(s);
        let parts = split_spec(s, sep);
        let rest = singletons(s) + seq![Seq::<char>::empty()];
        assert(parts.skip(1) =~= rest);
        assert(rest.len() >= 1);
        assert(join_spec(parts, sep) =~= join_spec(rest, sep));
    } else {
        lemma_find_idx(s, sep);
        match find_idx(s, sep) {
            Some(i) => {
                let rest = s.skip(i + sep.len());
                lemma_split_join(rest, sep);
                lemma_split_nonempty(rest, sep);
                let parts = split_spec(s, sep);
                assert(parts.skip(1) =~= split_spec(rest, sep));
                assert(join_spec(parts, sep) =~= s.take(i) + sep + rest);
                assert(s.subrange(i, i + sep.len()) == sep);
                assert(s.take(i) + sep + rest =~= s);
            },
            None => {
            },
        }
    }
}

/// Whether `entries` is the split of `s` on `sep`, as a dictionary
/// keyed `_0`, `_1`, ... in split order.
pub open spec fn split_entries(entries: Seq<(String, Value)>, s: Seq<char>, sep: Seq<char>) -> bool {
    let parts = split_spec(s, sep);
    &&& entries.len() == parts.len()
    &&& forall|j: int|
        0 <= j < entries.len() ==> (#[trigger] entries[j]).0@ == seq!['_'] + dec_str(j)
            && entries[j].1 is Str && entries[j].1->Str_0@ == parts[j]
}

/// Splits `s` on every occurrence of `sep`.
#[verifier::loop_isolation(false)]
pub fn split_string(s: &str, sep: &str) -> (parts: Vec<String>)
    ensures
        views_of(parts@) == split_spec(s@, sep@),
{
    let sv = str_to_chars(s);
    let pv = str_to_chars(sep);
    let mut parts: Vec<String> = Vec::new();
    if sep.is_empty() {
        parts.push(String::new());
        let mut i: usize = 0;
        while i < sv.len()
            invariant
                0 <= i <= sv@.len(),
                views_of(parts@) =~= seq![Seq::<char>::empty()] + singletons(sv@.take(i as int)),
            decreases sv@.len() - i,
        {
            let mut one: Vec<char> = Vec::new();
            one.push(sv[i]);
            let ghost old_parts = parts@;
            parts.push(chars_to_string(&one));
            proof {
                assert(one@ =~= seq![sv@[i as int]]);
                assert(views_of(parts@) =~~= views_of(old_parts).push(one@));
                assert((seq![Seq::<char>::empty()] + singletons(sv@.take(i + 1 as int))) =~~= (
                seq![Seq::<char>::empty()] + singletons(sv@.take(i as int))).push(
                    seq![sv@[i as int]],
                ));
                assert(views_of(parts@) =~~= seq![Seq::<char>::empty()] + singletons(
                    sv@.take(i + 1 as int),
                ));
            }
            i = i + 1;
        }
        parts.push(String::new());
        proof {
            assert(sv@.take(sv@.len() as int) =~= sv@);
            assert(views_of(parts@) =~= split_spec(sv@, sep@));
        }
        return parts;
    }
    let mut base: usize = 0;
    proof {
        assert(sv@.skip(0) =~= sv@);
    }
    loop
        invariant
            0 <= base <= sv@.len(),
            pv@.len() >= 1,
            split_spec(sv@, sep@) =~= views_of(parts@) + split_spec(sv@.skip(base as int), sep@),
        decreases sv@.len() - base,
    {
        let rest = copy_range(&sv, base, sv.len());
        match find_in(&rest, &pv) {
            Some(i) => {
                proof {
                    lemma_find_idx(rest@, pv@);
                    assert(rest@ =~= sv@.skip(base as int));
                }
                let piece = copy_range(&sv, base, base + i);
                parts.push(chars_to_string(&piece));
                proof {
                    assert(rest@.take(i as int) =~= sv@.subrange(base as int, base + i));
                    assert(rest@.skip(i + pv@.len()) =~= sv@.skip(base + i + pv@.len()));
                    assert(views_of(parts@) =~= views_of(parts@.drop_last()).push(
                        sv@.subrange(base as int, base + i),
                    ));
                    assert(split_spec(sv@, sep@) =~= views_of(parts@) + split_spec(
                        sv@.skip(base + i + pv@.len()),
                        sep@,
                    ));
                }
                base = base + i + pv.len();
            },
            None => {
                let piece = copy_range(&sv, base, sv.len());
                parts.push(chars_to_string(&piece));
                proof {
                    assert(rest@ =~= sv@.skip(base as int));
                    assert(views_of(parts@) =~= (views_of(parts@.drop_last())).push(rest@));
                    assert(views_of(parts@) =~= split_spec(sv@, sep@));
                }
                return parts;
            },
        }
    }
}

/// Splits the string given second on the separator given first and
/// returns the pieces as a dictionary keyed `_0`, `_1`, ... in split
/// order.
#[verifier::loop_isolation(false)]
pub fn split(args: &Vec<Value>) -> (r: Result<Value, BindError>)
    ensures
        crate::bind::bad_two_strings(args@) matches Some(e) ==> r == Err::<Value, BindError>(e),
        crate::bind::bad_two_strings(args@) is None ==> (r matches Ok(v) && v matches Value::Dict(
            entries,
        ) && split_entries(entries@, string_arg(args@[1]), string_arg(args@[0]))),
{
    let (sep, s) = match two_strings(args) {
        Ok(p) => p,
        Err(e) => {
            return Err(e);
        },
    };
    let pieces = split_string(s.as_str(), sep.as_str());
    let mut entries: Vec<(String, Value)> = Vec::new();
    let mut i: usize = 0;
    proof {
        reveal_strlit("_");
    }
    while i < pieces.len()
        invariant
            0 <= i <= pieces@.len(),
            views_of(pieces@) == split_spec(s@, sep@),
            entries@.len() == i,
            forall|j: int|
                0 <= j < i ==> (#[trigger] entries@[j]).0@ == seq!['_'] + dec_str(j)
                    && entries@[j].1 is Str && entries@[j].1->Str_0@ == pieces@[j]@,
        decreases pieces@.len() - i,
    {
        let mut key = String::from_str("_");
        let num = u64_to_string(i as u64);
        key.append(num.as_str());
        proof {
            assert(key@ =~= seq!['_'] + dec_str(i as int));
        }
        entries.push((key, Value::Str(pieces[i].clone())));
        i = i + 1;
    }
    proof {
        assert forall|j: int| 0 <= j < entries@.len() implies (#[trigger] entries@[j]).0@
            == seq!['_'] + dec_str(j) && entries@[j].1 is Str && entries@[j].1->Str_0@
            == split_spec(s@, sep@)[j] by {
            assert(views_of(pieces@)[j] == pieces@[j]@);
        }
    }
    Ok(Value::Dict(entries))
}

/// Joins the string forms of the elements of the array given second
/// with the separator given first. Every scalar element (nil, bool,
/// integer, string) renders as the engine renders it; an element that
/// is itself an array or a dictionary is rejected with a domain error
/// — a deliberate deviation from engines that render such elements
/// through their debug form (see [`render_spec`]).
#[verifier::loop_isolation(false)]
pub fn join(args: &Vec<Value>) -> (r: Result<Value, BindError>)
    ensures
        args@.len() != 2 ==> r == Err::<Value, BindError>(arity_error(2, args@.len() as int)),
        args@.len() == 2 && !(args@[0] is Str) ==> r == Err::<Value, BindError>(
            BindError::Convert(0),
        ),
        args@.len() == 2 && args@[0] is Str && !(args@[1] is Array) ==> (r matches Err(e)
            && e matches BindError::Domain(m) && m@ == "second argument must be of type Array"@),
        (args@.len() == 2 && args@[0] is Str && args@[1] is Array) ==> (
        if all_renderable(args@[1]->Array_0@) {
            r matches Ok(v) && v matches Value::Str(t) && t@ == join_spec(
                rendered_views(args@[1]->Array_0@),
                string_arg(args@[0]),
            )
        } else {
            r matches Err(e) && e matches BindError::Domain(m) && m@
                == "array element has no string form"@
        }),
{
    if args.len() != 2 {
        return Err(BindError::Arity { expected: 2, got: args.len() });
    }
    let sep = match conv_string(&args[0]) {
        Some(s) => s,
        None => {
            return Err(BindError::Convert(0));
        },
    };
    match &args[1] {
        Value::Array(elems) => {
            let mut rendered: Vec<String> = Vec::new();
            let mut i: usize = 0;
            while i < elems.len()
                invariant
                    0 <= i <= elems@.len(),
                    all_renderable(elems@.take(i as int)),
                    views_of(rendered@) =~= rendered_views(elems@.take(i as int)),
                decreases elems@.len() - i,
            {
                let ghost old_rendered = rendered@;
                match render(&elems[i]) {
                    Some(t) => {
                        proof {
                            assert(render_of(elems@[i as int]) == t@);
                        }
                        rendered.push(t);
                    },
                    None => {
                        proof {
                            assert(!(render_spec(elems@[i as int]) is Some));
                        }
                        return Err(
                            BindError::Domain(String::from_str("array element has no string form")),
                        );
                    },
                }
                proof {
                    assert(elems@.take(i + 1 as int) =~= elems@.take(i as int).push(
                        elems@[i as int],
                    ));
                    assert(views_of(rendered@) =~~= views_of(old_rendered).push(
                        render_of(elems@[i as int]),
                    ));
                    assert(rendered_views(elems@.take(i + 1 as int)) =~~= rendered_views(
                        elems@.take(i as int),
                    ).push(render_of(elems@[i as int])));
                    assert(views_of(rendered@) =~~= rendered_views(elems@.take(i + 1 as int)));
                }
                i = i + 1;
            }
            proof {
                assert(elems@.take(elems@.len() as int) =~= elems@);
            }
            let out = join_strings(&rendered, sep.as_str());
            Ok(Value::Str(out))
        },
        _ => Err(BindError::Domain(String::from_str("second argument must be of type Array"))),
    }
}

} // verus!
