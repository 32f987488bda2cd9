//! Service name templates such as `weather.{location}.{id}`: the base name
//! before the first dot and the parameters written in braces.

use vstd::prelude::*;

use crate::text::{chars_of, string_of};

verus! {

/// The parameters of a template, scanning left to right. `current` is the
/// name being read inside braces, if any: a `{` opens a name, the characters up
/// to the next `}` (or the end of the text) form it, and empty names are
/// dropped.
pub open spec fn params_scan(s: Seq<char>, current: Option<Seq<char>>) -> Seq<Seq<char>>
    decreases s.len(),
{
    if s.len() == 0 {
        match current {
            Some(p) => if p.len() > 0 {
                seq![p]
            } else {
                Seq::empty()
            },
            None => Seq::empty(),
        }
    } else {
        match current {
            None => if s[0] == '{' {
                params_scan(s.drop_first(), Some(Seq::empty()))
            } else {
                params_scan(s.drop_first(), None)
            },
            Some(p) => if s[0] == '}' {
                (if p.len() > 0 {
                    seq![p]
                } else {
                    Seq::empty()
                }) + params_scan(s.drop_first(), None)
            } else {
                params_scan(s.drop_first(), Some(p.push(s[0])))
            },
        }
    }
}

/// The parameter names that a template names in braces, in order.
pub open spec fn template_params(t: Seq<char>) -> Seq<Seq<char>> {
    params_scan(t, None)
}

/// The part of `t` before its first dot (all of `t` when it has none).
pub open spec fn before_first_dot(t: Seq<char>) -> Seq<char>
    decreases t.len(),
{
    if t.len() == 0 {
        Seq::empty()
    } else if t[0] == '.' {
        Seq::empty()
    } else {
        seq![t[0]] + before_first_dot(t.drop_first())
    }
}

proof fn lemma_params_scan_step(s: Seq<char>, i: int, current: Option<Seq<char>>)
    requires
        0 <= i < s.len(),
    ensures
        params_scan(s.skip(i), current) == match current {
            None => if s[i] == '{' {
                params_scan(s.skip(i + 1), Some(Seq::empty()))
            } else {
                params_scan(s.skip(i + 1), None)
            },
            Some(p) => if s[i] == '}' {
                (if p.len() > 0 {
                    seq![p]
                } else {
                    Seq::empty()
                }) + params_scan(s.skip(i + 1), None)
            } else {
                params_scan(s.skip(i + 1), Some(p.push(s[i])))
            },
        },
{
    assert(s.skip(i).drop_first() =~= s.skip(i + 1));
}

/// Extracts the parameter names of a template: `weather.{id}.{zone}` gives
/// `["id", "zone"]`; empty braces give nothing.
pub fn extract_template_params(template: &str) -> (params: Vec<String>)
    ensures
        params.deep_view() == template_params(template@),
{
    let cs = chars_of(template);
    let mut params: Vec<String> = Vec::new();
    let mut in_param = false;
    let mut current: Vec<char> = Vec::new();
    let mut i: usize = 0;
    assert(cs@.skip(0) =~= cs@);
    while i < cs.len()
        invariant
            i <= cs.len(),
            cs@ == template@,
            !in_param ==> current@.len() == 0,
            params.deep_view() + params_scan(
                cs@.skip(i as int),
                if in_param {
                    Some(current@)
                } else {
                    None
                },
            ) == template_params(template@),
        decreases cs.len() - i,
    {
        let c = cs[i];
        proof {
            lemma_params_scan_step(
                cs@,
                i as int,
                if in_param {
                    Some(current@)
                } else {
                    None
                },
            );
        }
        if !in_param {
            if c == '{' {
                in_param = true;
                current = Vec::new();
            }
        } else if c == '}' {
            if current.len() > 0 {
                let name = string_of(&current);
                let ghost before = params.deep_view();
                params.push(name);
                proof {
                    assert(params.deep_view() =~= before + seq![current@]);
                    assert(before + seq![current@] + params_scan(cs@.skip(i + 1), None) =~= before
                        + (seq![current@] + params_scan(cs@.skip(i + 1), None)));
                }
            } else {
                assert(params.deep_view() + (Seq::<Seq<char>>::empty() + params_scan(
                    cs@.skip(i + 1),
                    None,
                )) =~= params.deep_view() + params_scan(cs@.skip(i + 1), None));
            }
            in_param = false;
            current = Vec::new();
        } else {
            current.push(c);
        }
        i = i + 1;
    }
    proof {
        assert(cs@.skip(cs.len() as int) =~= Seq::<char>::empty());
    }
    if in_param && current.len() > 0 {
        let name = string_of(&current);
        let ghost before = params.deep_view();
        params.push(name);
        assert(params.deep_view() =~= before + seq![current@]);
    } else {
        assert(params.deep_view() + Seq::<Seq<char>>::empty() =~= params.deep_view());
    }
    params
}

/// The base name of a service template, the text before its first dot:
/// `weather.{location}.{id}` gives `weather`.
pub fn service_base_name(template: &str) -> (name: String)
    ensures
        name@ == before_first_dot(template@),
{
    let cs = chars_of(template);
    let mut out: Vec<char> = Vec::new();
    let mut i: usize = 0;
    assert(cs@.skip(0) =~= cs@);
    assert(out@ + before_first_dot(cs@) =~= before_first_dot(cs@));
    while i < cs.len() && cs[i] != '.'
        invariant
            i <= cs.len(),
            cs@ == template@,
            out@ + before_first_dot(cs@.skip(i as int)) == before_first_dot(template@),
        decreases cs.len() - i,
    {
        proof {
            assert(cs@.skip(i as int).drop_first() =~= cs@.skip(i + 1));
            assert(out@.push(cs@[i as int]) + before_first_dot(cs@.skip(i + 1)) =~= out@ + (seq![
                cs@[i as int],
            ] + before_first_dot(cs@.skip(i + 1))));
        }
        out.push(cs[i]);
        i = i + 1;
    }
    proof {
        if i < cs.len() {
            assert(cs@.skip(i as int)[0] == '.');
        } else {
            assert(cs@.skip(i as int) =~= Seq::<char>::empty());
        }
        assert(out@ + Seq::<char>::empty() =~= out@);
    }
    string_of(&out)
}

/// `.{p1}.{p2}...`: the parameters as a template writes them after its base.
pub open spec fn render_params(params: Seq<Seq<char>>) -> Seq<char>
    decreases params.len(),
{
    if params.len() == 0 {
        Seq::empty()
    } else {
        seq!['.', '{'] + params[0] + seq!['}'] + render_params(params.drop_first())
    }
}

/// The template `base.{p1}.{p2}...`.
pub open spec fn render_template(base: Seq<char>, params: Seq<Seq<char>>) -> Seq<char> {
    base + render_params(params)
}

/// `s` does not contain `c`.
pub open spec fn lacks(s: Seq<char>, c: char) -> bool {
    forall|i: int| 0 <= i < s.len() ==> s[i] != c
}

proof fn lemma_scan_skips_plain(a: Seq<char>, x: Seq<char>)
    requires
        lacks(a, '{'),
    ensures
        params_scan(a + x, None) == params_scan(x, None),
    decreases a.len(),
{
    if a.len() > 0 {
        assert((a + x).drop_first() =~= a.drop_first() + x);
        lemma_scan_skips_plain(a.drop_first(), x);
    } else {
        assert(a + x =~= x);
    }
}

proof fn lemma_scan_reads_name(p: Seq<char>, x: Seq<char>, q: Seq<char>)
    requires
        lacks(p, '}'),
    ensures
        params_scan(p + x, Some(q)) == params_scan(x, Some(q + p)),
    decreases p.len(),
{
    if p.len() > 0 {
        assert((p + x).drop_first() =~= p.drop_first() + x);
        lemma_scan_reads_name(p.drop_first(), x, q.push(p[0]));
        assert(q.push(p[0]) + p.drop_first() =~= q + p);
    } else {
        assert(p + x =~= x);
        assert(q + p =~= q);
    }
}

proof fn lemma_scan_rendered(params: Seq<Seq<char>>)
    requires
        forall|i: int| 0 <= i < params.len() ==> params[i].len() > 0 && lacks(#[trigger] params[i], '}'),
    ensures
        params_scan(render_params(params), None) == params,
    decreases params.len(),
{
    if params.len() > 0 {
        let p = params[0];
        let rest = render_params(params.drop_first());
        let r = render_params(params);
        assert(r =~= seq!['.', '{'] + p + seq!['}'] + rest);
        assert(r.drop_first() =~= seq!['{'] + (p + (seq!['}'] + rest)));
        assert(r.drop_first().drop_first() =~= p + (seq!['}'] + rest));
        lemma_scan_reads_name(p, seq!['}'] + rest, Seq::empty());
        assert(Seq::<char>::empty() + p =~= p);
        assert((seq!['}'] + rest).drop_first() =~= rest);
        lemma_scan_rendered(params.drop_first());
        let t = seq!['}'] + rest;
        assert(params_scan(t, Some(p)) == seq![p] + params_scan(rest, None));
        assert(params_scan(r.drop_first().drop_first(), Some(Seq::empty())) == params_scan(t, Some(p)));
        assert(params_scan(r.drop_first(), None) == params_scan(r.drop_first().drop_first(), Some(Seq::empty())));
        assert(params_scan(r, None) == params_scan(r.drop_first(), None));
        assert(seq![p] + params.drop_first() =~= params);
    } else {
        assert(params =~= Seq::<Seq<char>>::empty());
    }
}

proof fn lemma_base_plain(a: Seq<char>, x: Seq<char>)
    requires
        lacks(a, '.'),
    ensures
        before_first_dot(a + x) == a + before_first_dot(x),
    decreases a.len(),
{
    if a.len() > 0 {
        assert((a + x).drop_first() =~= a.drop_first() + x);
        lemma_base_plain(a.drop_first(), x);
        assert(seq![a[0]] + (a.drop_first() + before_first_dot(x)) =~= a + before_first_dot(x));
    } else {
        assert(a + x =~= x);
        assert(a + before_first_dot(x) =~= before_first_dot(x));
    }
}

/// A template read back gives what it was written from: for a base name with
/// no dot and no opening brace, and non-empty parameter names with no closing
/// brace, the template `base.{p1}.{p2}...` has base name `base` and the
/// parameters `p1, p2, ...` in order.
pub proof fn law_template_round_trip(base: Seq<char>, params: Seq<Seq<char>>)
    requires
        lacks(base, '.'),
        lacks(base, '{'),
        forall|i: int| 0 <= i < params.len() ==> params[i].len() > 0 && lacks(#[trigger] params[i], '}'),
    ensures
        template_params(render_template(base, params)) == params,
        before_first_dot(render_template(base, params)) == base,
{
    lemma_scan_skips_plain(base, render_params(params));
    lemma_scan_rendered(params);
    lemma_base_plain(base, render_params(params));
    let r = render_params(params);
    if params.len() > 0 {
        assert(r[0] == '.');
    }
    assert(base + before_first_dot(r) =~= base);
}

} // verus!
