//! Character-level helpers shared by the naming and template modules.

use vstd::prelude::*;

verus! {

broadcast use vstd::string::group_string_axioms;

/// The characters of `s`, in order.
pub fn chars_of(s: &str) -> (v: Vec<char>)
    ensures
        v@ == s@,
{
    let mut v: Vec<char> = Vec::new();
    for c in it: s.chars()
        invariant
            v@ == it.seq().take(it.index() as int),
            it.seq() == s@,
    {
        v.push(c);
    }
    v
}

/// Appends one character to `s` (std's `String::push`).
#[verifier::external_body]
pub fn push_char(s: &mut String, c: char)
    ensures
        final(s)@ == old(s)@.push(c),
{
    s.push(c);
}

/// Whether `a` reads `b`.
pub fn same_text(a: &String, b: &str) -> (r: bool)
    ensures
        r == (a@ == b@),
{
    let other = b.to_string();
    *a == other
}

/// A copy of a list of strings.
pub fn clone_strings(v: &Vec<String>) -> (res: Vec<String>)
    ensures
        res.deep_view() == v.deep_view(),
{
    let mut res: Vec<String> = Vec::new();
    let mut i: usize = 0;
    while i < v.len()
        invariant
            i <= v.len(),
            res@.len() == i,
            forall|j: int| 0 <= j < i ==> (#[trigger] res@[j])@ == v@[j]@,
        decreases v.len() - i,
    {
        let s = v[i].clone();
        res.push(s);
        i = i + 1;
    }
    assert(res.deep_view() =~= v.deep_view());
    res
}

/// The string whose characters are `cs`.
pub fn string_of(cs: &Vec<char>) -> (s: String)
    ensures
        s@ == cs@,
{
    let mut s = String::new();
    let mut i: usize = 0;
    while i < cs.len()
        invariant
            i <= cs.len(),
            s@ == cs@.take(i as int),
        decreases cs.len() - i,
    {
        push_char(&mut s, cs[i]);
        i = i + 1;
        assert(s@ =~= cs@.take(i as int));
    }
    assert(cs@.take(cs.len() as int) =~= cs@);
    s
}

} // verus!
