//! Names of the items that the service macros generate.

use vstd::prelude::*;

use crate::text::{chars_of, push_char};

verus! {

broadcast use vstd::string::group_string_axioms;

/// What `char::to_uppercase` yields for `c`: the Unicode uppercase mapping,
/// one or more characters.
pub uninterp spec fn char_uppercase(c: char) -> Seq<char>;

/// The uppercase form of an ASCII character: `a` to `z` become `A` to `Z`,
/// every other character stays as it is.
pub open spec fn ascii_upper(c: char) -> char {
    if 'a' <= c <= 'z' {
        ((c as int) - 32) as char
    } else {
        c
    }
}

/// The uppercase text of a character: its ASCII uppercase for an ASCII
/// character, its Unicode uppercase mapping otherwise.
pub open spec fn uppercase_text(c: char) -> Seq<char> {
    if (c as u32) < 128 {
        seq![ascii_upper(c)]
    } else {
        char_uppercase(c)
    }
}

/// `char::to_uppercase`, collected into a string. The documentation promises
/// one or more characters, and for ASCII characters the Unicode mapping is the
/// ASCII one (`a`-`z` to `A`-`Z`, the others unchanged). Beyond ASCII the
/// mapping comes from the Unicode tables and is left to the name.
#[verifier::external_body]
fn uppercase_of_char(c: char) -> (s: String)
    ensures
        s@ == char_uppercase(c),
        s@.len() >= 1,
        (c as u32) < 128 ==> s@ == seq![ascii_upper(c)],
{
    c.to_uppercase().collect::<String>()
}

/// Pascal-case rendering of `s`, read left to right: underscores are dropped,
/// the first character after the start or after an underscore is uppercased,
/// every other character is kept as it is.
pub open spec fn pascal_scan(s: Seq<char>, at_word_start: bool) -> Seq<char>
    decreases s.len(),
{
    if s.len() == 0 {
        Seq::empty()
    } else if s[0] == '_' {
        pascal_scan(s.drop_first(), true)
    } else if at_word_start {
        uppercase_text(s[0]) + pascal_scan(s.drop_first(), false)
    } else {
        seq![s[0]] + pascal_scan(s.drop_first(), false)
    }
}

/// The PascalCase form of a snake_case name.
pub open spec fn pascal_case(s: Seq<char>) -> Seq<char> {
    pascal_scan(s, true)
}

proof fn lemma_pascal_scan_step(s: Seq<char>, i: int, at_word_start: bool)
    requires
        0 <= i < s.len(),
    ensures
        pascal_scan(s.skip(i), at_word_start) == if s[i] == '_' {
            pascal_scan(s.skip(i + 1), true)
        } else if at_word_start {
            uppercase_text(s[i]) + pascal_scan(s.skip(i + 1), false)
        } else {
            seq![s[i]] + pascal_scan(s.skip(i + 1), false)
        },
{
    assert(s.skip(i).drop_first() =~= s.skip(i + 1));
}

/// Converts a snake_case identifier to PascalCase: `hello_world` becomes
/// `HelloWorld`; leading, trailing and repeated underscores leave no trace.
pub fn snake_to_pascal(s: &str) -> (res: String)
    ensures
        res@ == pascal_case(s@),
{
    let cs = chars_of(s);
    let mut res = String::new();
    let mut at_word_start = true;
    let mut i: usize = 0;
    assert(cs@.skip(0) =~= cs@);
    while i < cs.len()
        invariant
            i <= cs.len(),
            cs@ == s@,
            res@ + pascal_scan(cs@.skip(i as int), at_word_start) == pascal_case(s@),
        decreases cs.len() - i,
    {
        let c = cs[i];
        proof {
            lemma_pascal_scan_step(cs@, i as int, at_word_start);
        }
        if c == '_' {
            at_word_start = true;
        } else if at_word_start {
            let up = uppercase_of_char(c);
            assert(up@ == uppercase_text(c));
            proof {
                assert(res@ + up@ + pascal_scan(cs@.skip(i + 1), false) =~= res@ + (up@
                    + pascal_scan(cs@.skip(i + 1), false)));
            }
            res.append(up.as_str());
            at_word_start = false;
        } else {
            proof {
                assert(res@.push(c) + pascal_scan(cs@.skip(i + 1), false) =~= res@ + (seq![c]
                    + pascal_scan(cs@.skip(i + 1), false)));
            }
            push_char(&mut res, c);
        }
        i = i + 1;
    }
    assert(cs@.skip(cs.len() as int) =~= Seq::<char>::empty());
    assert(res@ + Seq::<char>::empty() =~= res@);
    res
}

proof fn lemma_scan_split(a: Seq<char>, b: Seq<char>, at_word_start: bool)
    ensures
        pascal_scan(a + seq!['_'] + b, at_word_start) == pascal_scan(a, at_word_start)
            + pascal_scan(b, true),
    decreases a.len(),
{
    let joined = a + seq!['_'] + b;
    if a.len() == 0 {
        assert(joined.drop_first() =~= b);
        assert(pascal_scan(a, at_word_start) + pascal_scan(b, true) =~= pascal_scan(b, true));
    } else {
        assert(joined.drop_first() =~= a.drop_first() + seq!['_'] + b);
        lemma_scan_split(a.drop_first(), b, true);
        lemma_scan_split(a.drop_first(), b, false);
        if a[0] != '_' {
            let head = if at_word_start {
                uppercase_text(a[0])
            } else {
                seq![a[0]]
            };
            assert(head + (pascal_scan(a.drop_first(), false) + pascal_scan(b, true)) =~= (head
                + pascal_scan(a.drop_first(), false)) + pascal_scan(b, true));
        }
    }
}

proof fn lemma_scan_inside_word(w: Seq<char>)
    requires
        forall|i: int| 0 <= i < w.len() ==> w[i] != '_',
    ensures
        pascal_scan(w, false) == w,
    decreases w.len(),
{
    if w.len() > 0 {
        lemma_scan_inside_word(w.drop_first());
        assert(seq![w[0]] + w.drop_first() =~= w);
    } else {
        assert(w =~= Seq::<char>::empty());
    }
}

/// Underscores only separate words: converting `a_b` gives the conversion of
/// `a` followed by that of `b`, whatever `a` and `b` are. So leading, trailing
/// and repeated underscores change nothing.
pub proof fn law_pascal_case_splits_at_underscore(a: Seq<char>, b: Seq<char>)
    ensures
        pascal_case(a + seq!['_'] + b) == pascal_case(a) + pascal_case(b),
{
    lemma_scan_split(a, b, true);
}

/// A single word (non-empty, no underscore) keeps its text and has its first
/// character uppercased.
pub proof fn law_pascal_case_of_word(w: Seq<char>)
    requires
        w.len() > 0,
        forall|i: int| 0 <= i < w.len() ==> w[i] != '_',
    ensures
        pascal_case(w) == uppercase_text(w[0]) + w.drop_first(),
{
    lemma_scan_inside_word(w.drop_first());
}

} // verus!
