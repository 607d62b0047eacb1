//! Keys are written as they are, so they must not hold the `=` that ends them.

use vstd::prelude::*;
use vstd::string::StringExecFns;

verus! {

/// A key is safe to write when it has no `=` in it.
pub open spec fn is_safe_key(key: Seq<char>) -> bool {
    !key.contains('=')
}

/// Whether `s` holds an equal sign.
pub fn contains_eq_sign(s: &str) -> (r: bool)
    ensures
        r == s@.contains('='),
{
    for c in it: s.chars()
        invariant
            it.seq() == s@,
            forall|j: int| 0 <= j < it.index() ==> s@[j] != '=',
    {
        if c == '=' {
            return true;
        }
    }
    false
}

/// Writes a piece of a key. The piece must be free of `=`.
pub fn write_key_str(writer: &mut String, s: &str)
    requires
        is_safe_key(s@),
    ensures
        final(writer)@ == old(writer)@ + s@,
{
    writer.append(s);
}

/// Writes one character of a key. It must not be `=`.
pub fn write_key_char(writer: &mut String, c: char)
    requires
        c != '=',
    ensures
        final(writer)@ == old(writer)@.push(c),
{
    writer.push(c);
}

/// No key holds `=`.
pub open spec fn all_keys_safe(params: Seq<(Seq<char>, Seq<char>)>) -> bool {
    forall|i: int| 0 <= i < params.len() ==> is_safe_key((#[trigger] params[i]).0)
}

/// The pair at `at` is the first whose key holds `=`.
pub open spec fn is_first_unsafe(params: Seq<(Seq<char>, Seq<char>)>, at: int) -> bool {
    &&& 0 <= at < params.len()
    &&& !is_safe_key(params[at].0)
    &&& all_keys_safe(params.take(at))
}

/// A key that cannot be written, because it holds `=`.
#[derive(Debug)]
pub struct UnsafeKey(pub String);

/// Finds the first pair whose key holds `=`, if there is one.
pub fn first_unsafe_key(pairs: &Vec<(String, String)>) -> (r: Option<usize>)
    ensures
        match r {
            Some(at) => is_first_unsafe(pairs.deep_view(), at as int),
            None => all_keys_safe(pairs.deep_view()),
        },
{
    let ghost params = pairs.deep_view();
    let mut i: usize = 0;
    while i < pairs.len()
        invariant
            i <= pairs.len(),
            params == pairs.deep_view(),
            all_keys_safe(params.take(i as int)),
        decreases pairs.len() - i,
    {
        if contains_eq_sign(pairs[i].0.as_str()) {
            return Some(i);
        }
        proof {
            assert forall|j: int| 0 <= j < i + 1 implies is_safe_key(
                (#[trigger] params.take(i + 1)[j]).0,
            ) by {
                if j < i {
                    assert(params.take(i + 1)[j] == params.take(i as int)[j]);
                }
            }
        }
        i += 1;
    }
    proof {
        assert(params.take(i as int) =~= params);
    }
    None
}

} // verus!
