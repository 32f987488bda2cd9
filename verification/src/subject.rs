//! Subject expressions that the service macro emits, and what they evaluate
//! to once the service parameters have values.

use vstd::prelude::*;

use crate::template::{extract_template_params, template_params};
use crate::text::{chars_of, clone_strings, push_char, string_of};

verus! {

broadcast use vstd::string::group_string_axioms;

/// An expression that builds a subject string in generated code.
#[derive(Debug, PartialEq, Eq)]
pub enum SubjectExpr {
    /// A fixed string, emitted as `"...".to_string()`.
    Literal(String),
    /// `format!(template, args...)`, where each `{}` in `template` takes the
    /// value of the next argument, an identifier of a service parameter.
    Format { template: String, args: Vec<String> },
}

/// The mathematical form of a `SubjectExpr`.
pub enum SubjectExprView {
    Literal(Seq<char>),
    Format(Seq<char>, Seq<Seq<char>>),
}

impl View for SubjectExpr {
    type V = SubjectExprView;

    open spec fn view(&self) -> SubjectExprView {
        match self {
            SubjectExpr::Literal(s) => SubjectExprView::Literal(s@),
            SubjectExpr::Format { template, args } => SubjectExprView::Format(
                template@,
                args.deep_view(),
            ),
        }
    }
}

/// `a.b`
pub open spec fn dot_join(a: Seq<char>, b: Seq<char>) -> Seq<char> {
    a + seq!['.'] + b
}

/// `{}.` repeated `n` times.
pub open spec fn placeholders_dotted(n: nat) -> Seq<char>
    decreases n,
{
    if n == 0 {
        Seq::empty()
    } else {
        seq!['{', '}', '.'] + placeholders_dotted((n - 1) as nat)
    }
}

/// `.{}` repeated `n` times.
pub open spec fn dotted_placeholders(n: nat) -> Seq<char>
    decreases n,
{
    if n == 0 {
        Seq::empty()
    } else {
        seq!['.', '{', '}'] + dotted_placeholders((n - 1) as nat)
    }
}

/// `n` placeholders joined by dots: `{}.{}...{}`, empty for `n == 0`.
pub open spec fn placeholders_joined(n: nat) -> Seq<char> {
    if n == 0 {
        Seq::empty()
    } else {
        seq!['{', '}'] + dotted_placeholders((n - 1) as nat)
    }
}

/// Index of the first `.` or `{` in `s`, its length when there is none.
pub open spec fn first_dot_or_brace(s: Seq<char>) -> nat
    decreases s.len(),
{
    if s.len() == 0 {
        0
    } else if s[0] == '.' || s[0] == '{' {
        0
    } else {
        1 + first_dot_or_brace(s.drop_first())
    }
}

/// A subject that names parameters is written in full, from the service's
/// base name (`weather.{id}.wind_speed`); this is that subject without its
/// base: the text after the first dot when no brace comes before it,
/// otherwise the whole subject.
pub open spec fn after_base(s: Seq<char>) -> Seq<char> {
    let k = first_dot_or_brace(s) as int;
    if k < s.len() && s[k] == '.' {
        s.skip(k + 1)
    } else {
        s
    }
}

/// `s` with each parameter in braces replaced by a `{}` placeholder, scanning
/// left to right as `params_scan` does: a `{` opens a name that runs to the
/// next `}` or the end; empty names leave nothing.
pub open spec fn placeholder_scan(s: Seq<char>, current: Option<Seq<char>>) -> Seq<char>
    decreases s.len(),
{
    if s.len() == 0 {
        match current {
            Some(p) => if p.len() > 0 {
                seq!['{', '}']
            } else {
                Seq::empty()
            },
            None => Seq::empty(),
        }
    } else {
        match current {
            None => if s[0] == '{' {
                placeholder_scan(s.drop_first(), Some(Seq::empty()))
            } else {
                seq![s[0]] + placeholder_scan(s.drop_first(), None)
            },
            Some(p) => if s[0] == '}' {
                (if p.len() > 0 {
                    seq!['{', '}']
                } else {
                    Seq::empty()
                }) + placeholder_scan(s.drop_first(), None)
            } else {
                placeholder_scan(s.drop_first(), Some(p.push(s[0])))
            },
        }
    }
}

/// The expression for an endpoint subject relative to the service:
/// - the subject itself when the service has no parameters;
/// - for a subject that names no parameter, one `{}.` per service parameter
///   in front of it, bound to the parameters in order;
/// - for a subject that names parameters in braces, the subject without its
///   base name, each parameter replaced by `{}` and bound to it:
///   `weather.{id}.wind_speed` gives `format!("{}.wind_speed", id)`.
pub open spec fn subject_expr_spec(subject: Seq<char>, params: Seq<Seq<char>>) -> SubjectExprView {
    if params.len() == 0 {
        SubjectExprView::Literal(subject)
    } else if brace_free(subject) {
        SubjectExprView::Format(placeholders_dotted(params.len()) + subject, params)
    } else {
        SubjectExprView::Format(
            placeholder_scan(after_base(subject), None),
            template_params(after_base(subject)),
        )
    }
}

/// The expression for a stream's subject prefix: the parameters joined by dots.
pub open spec fn subject_prefix_expr_spec(params: Seq<Seq<char>>) -> SubjectExprView {
    SubjectExprView::Format(placeholders_joined(params.len()), params)
}

/// The expression for the full subject that a client requests: the service
/// base name and a dot in front of the endpoint's own expression, with the
/// same arguments.
pub open spec fn client_subject_expr_spec(
    service_name: Seq<char>,
    subject: Seq<char>,
    params: Seq<Seq<char>>,
) -> SubjectExprView {
    match subject_expr_spec(subject, params) {
        SubjectExprView::Literal(s) => SubjectExprView::Literal(dot_join(service_name, s)),
        SubjectExprView::Format(t, a) => SubjectExprView::Format(service_name + seq!['.'] + t, a),
    }
}

/// Appends `{}.` to `s`, `n` times.
fn push_placeholders_dotted(s: &mut String, n: usize)
    ensures
        final(s)@ == old(s)@ + placeholders_dotted(n as nat),
{
    let ghost start = s@;
    let mut i: usize = 0;
    while i < n
        invariant
            i <= n,
            s@ + placeholders_dotted((n - i) as nat) == start + placeholders_dotted(n as nat),
        decreases n - i,
    {
        let ghost before = s@;
        push_char(s, '{');
        push_char(s, '}');
        push_char(s, '.');
        assert(s@ =~= before + seq!['{', '}', '.']);
        assert(s@ + placeholders_dotted((n - (i + 1)) as nat) =~= before + placeholders_dotted(
            (n - i) as nat,
        ));
        i = i + 1;
    }
    assert(s@ + Seq::<char>::empty() =~= s@);
}

/// Whether `cs` holds an opening brace.
fn has_open_brace(cs: &Vec<char>) -> (r: bool)
    ensures
        r == !brace_free(cs@),
{
    let mut i: usize = 0;
    while i < cs.len()
        invariant
            i <= cs.len(),
            forall|j: int| 0 <= j < i ==> cs@[j] != '{',
        decreases cs.len() - i,
    {
        if cs[i] == '{' {
            return true;
        }
        i = i + 1;
    }
    false
}

/// The characters of a subject without its base name.
fn after_base_chars(cs: &Vec<char>) -> (r: Vec<char>)
    ensures
        r@ == after_base(cs@),
{
    let mut i: usize = 0;
    assert(cs@.skip(0) =~= cs@);
    while i < cs.len() && cs[i] != '.' && cs[i] != '{'
        invariant
            i <= cs.len(),
            first_dot_or_brace(cs@) == i + first_dot_or_brace(cs@.skip(i as int)),
        decreases cs.len() - i,
    {
        assert(cs@.skip(i as int).drop_first() =~= cs@.skip(i + 1));
        i = i + 1;
    }
    if i < cs.len() {
        assert(cs@.skip(i as int)[0] == cs@[i as int]);
    } else {
        assert(cs@.skip(i as int) =~= Seq::<char>::empty());
    }
    let mut r: Vec<char> = Vec::new();
    if i < cs.len() && cs[i] == '.' {
        let mut j: usize = i + 1;
        while j < cs.len()
            invariant
                i + 1 <= j <= cs.len(),
                r@ == cs@.subrange(i + 1, j as int),
            decreases cs.len() - j,
        {
            r.push(cs[j]);
            j = j + 1;
            assert(r@ =~= cs@.subrange(i + 1, j as int));
        }
        assert(cs@.skip(i + 1) =~= cs@.subrange(i + 1, cs.len() as int));
    } else {
        let mut j: usize = 0;
        while j < cs.len()
            invariant
                j <= cs.len(),
                r@ == cs@.take(j as int),
            decreases cs.len() - j,
        {
            r.push(cs[j]);
            j = j + 1;
            assert(r@ =~= cs@.take(j as int));
        }
        assert(cs@.take(cs.len() as int) =~= cs@);
    }
    r
}

proof fn lemma_placeholder_scan_step(s: Seq<char>, i: int, current: Option<Seq<char>>)
    requires
        0 <= i < s.len(),
    ensures
        placeholder_scan(s.skip(i), current) == match current {
            None => if s[i] == '{' {
                placeholder_scan(s.skip(i + 1), Some(Seq::empty()))
            } else {
                seq![s[i]] + placeholder_scan(s.skip(i + 1), None)
            },
            Some(p) => if s[i] == '}' {
                (if p.len() > 0 {
                    seq!['{', '}']
                } else {
                    Seq::empty()
                }) + placeholder_scan(s.skip(i + 1), None)
            } else {
                placeholder_scan(s.skip(i + 1), Some(p.push(s[i])))
            },
        },
{
    assert(s.skip(i).drop_first() =~= s.skip(i + 1));
}

/// `cs` with its parameters in braces replaced by `{}`.
fn placeholder_template(cs: &Vec<char>) -> (t: String)
    ensures
        t@ == placeholder_scan(cs@, None),
{
    let mut t = String::new();
    let mut in_param = false;
    let mut current: Vec<char> = Vec::new();
    let mut i: usize = 0;
    assert(cs@.skip(0) =~= cs@);
    assert(t@ + placeholder_scan(cs@, None) =~= placeholder_scan(cs@, None));
    while i < cs.len()
        invariant
            i <= cs.len(),
            !in_param ==> current@.len() == 0,
            t@ + placeholder_scan(
                cs@.skip(i as int),
                if in_param {
                    Some(current@)
                } else {
                    None
                },
            ) == placeholder_scan(cs@, None),
        decreases cs.len() - i,
    {
        let c = cs[i];
        let ghost before = t@;
        proof {
            lemma_placeholder_scan_step(
                cs@,
                i as int,
                if in_param {
                    Some(current@)
                } else {
                    None
                },
            );
        }
        if !in_param {
            if c == '{' {
                in_param = true;
                current = Vec::new();
            } else {
                push_char(&mut t, c);
                assert(t@ + placeholder_scan(cs@.skip(i + 1), None) =~= before + (seq![c]
                    + placeholder_scan(cs@.skip(i + 1), None)));
            }
        } else if c == '}' {
            if current.len() > 0 {
                push_char(&mut t, '{');
                push_char(&mut t, '}');
                assert(t@ + placeholder_scan(cs@.skip(i + 1), None) =~= before + (seq!['{', '}']
                    + placeholder_scan(cs@.skip(i + 1), None)));
            } else {
                assert(before + (Seq::<char>::empty() + placeholder_scan(cs@.skip(i + 1), None))
                    =~= t@ + placeholder_scan(cs@.skip(i + 1), None));
            }
            in_param = false;
            current = Vec::new();
        } else {
            current.push(c);
        }
        i = i + 1;
    }
    assert(cs@.skip(cs.len() as int) =~= Seq::<char>::empty());
    if in_param && current.len() > 0 {
        let ghost before = t@;
        push_char(&mut t, '{');
        push_char(&mut t, '}');
        assert(t@ =~= before + seq!['{', '}']);
    } else {
        assert(t@ + Seq::<char>::empty() =~= t@);
    }
    t
}

/// Builds the subject expression of an endpoint: `subject` as a literal when
/// there are no service parameters; `format!("{}.{}.subject", p1, p2)` for a
/// subject that names no parameter; and for a subject written with its
/// parameters, such as `weather.{id}.wind_speed`, the subject without its
/// base name with each parameter bound: `format!("{}.wind_speed", id)`.
pub fn build_subject_expr(subject: &str, service_params: &Vec<String>) -> (e: SubjectExpr)
    ensures
        e@ == subject_expr_spec(subject@, service_params.deep_view()),
{
    if service_params.len() == 0 {
        return SubjectExpr::Literal(subject.to_string());
    }
    let cs = chars_of(subject);
    if !has_open_brace(&cs) {
        let mut template = String::new();
        push_placeholders_dotted(&mut template, service_params.len());
        template.append(subject);
        assert(template@ =~= placeholders_dotted(service_params.len() as nat) + subject@);
        SubjectExpr::Format { template, args: clone_strings(service_params) }
    } else {
        let rest = after_base_chars(&cs);
        let template = placeholder_template(&rest);
        let rest_text = string_of(&rest);
        let args = extract_template_params(rest_text.as_str());
        SubjectExpr::Format { template, args }
    }
}

/// Builds the expression of a stream's subject prefix:
/// `format!("{}.{}", p1, p2)`, and `format!("")` without parameters.
pub fn build_subject_prefix_expr(service_params: &Vec<String>) -> (e: SubjectExpr)
    ensures
        e@ == subject_prefix_expr_spec(service_params.deep_view()),
        expr_args(e@) == service_params.deep_view(),
{
    let mut template = String::new();
    let n = service_params.len();
    if n > 0 {
        push_char(&mut template, '{');
        push_char(&mut template, '}');
        let mut i: usize = 1;
        while i < n
            invariant
                1 <= i <= n,
                template@ + dotted_placeholders((n - i) as nat) == placeholders_joined(n as nat),
            decreases n - i,
        {
            let ghost before = template@;
            push_char(&mut template, '.');
            push_char(&mut template, '{');
            push_char(&mut template, '}');
            assert(template@ + dotted_placeholders((n - (i + 1)) as nat) =~= before
                + dotted_placeholders((n - i) as nat));
            i = i + 1;
        }
        assert(template@ + Seq::<char>::empty() =~= template@);
    } else {
        assert(template@ =~= placeholders_joined(0));
    }
    SubjectExpr::Format { template, args: clone_strings(service_params) }
}

/// Builds the full subject a generated client requests: the service name
/// and a dot in front of the endpoint's expression, with the same arguments:
/// `"service.subject"` without parameters, else for instance
/// `format!("service.{}.{}.subject", &self.p1, &self.p2)`.
pub fn build_client_subject_expr(
    service_name: &str,
    subject: &str,
    service_params: &Vec<String>,
) -> (e: SubjectExpr)
    ensures
        e@ == client_subject_expr_spec(service_name@, subject@, service_params.deep_view()),
        expr_args(e@) == expr_args(subject_expr_spec(subject@, service_params.deep_view())),
{
    let mut full = service_name.to_string();
    push_char(&mut full, '.');
    assert(full@ =~= service_name@ + seq!['.']);
    match build_subject_expr(subject, service_params) {
        SubjectExpr::Literal(s) => {
            full.append(s.as_str());
            assert(full@ =~= dot_join(service_name@, s@));
            SubjectExpr::Literal(full)
        },
        SubjectExpr::Format { template, args } => {
            full.append(template.as_str());
            SubjectExpr::Format { template: full, args }
        },
    }
}

/// What `format!(t, values...)` yields: each `{}` is replaced by the next
/// value (by nothing once the values run out), other characters are copied.
pub open spec fn format_apply(t: Seq<char>, values: Seq<Seq<char>>) -> Seq<char>
    decreases t.len(),
{
    if t.len() == 0 {
        Seq::empty()
    } else if t.len() >= 2 && t[0] == '{' && t[1] == '}' {
        (if values.len() > 0 {
            values[0]
        } else {
            Seq::empty()
        }) + format_apply(t.skip(2), values.drop_first())
    } else {
        seq![t[0]] + format_apply(t.drop_first(), values)
    }
}

/// The string a subject expression evaluates to when its arguments have the
/// given values.
pub open spec fn eval_subject(e: SubjectExprView, values: Seq<Seq<char>>) -> Seq<char> {
    match e {
        SubjectExprView::Literal(s) => s,
        SubjectExprView::Format(t, _) => format_apply(t, values),
    }
}

/// Each value followed by a dot: `v1.v2....`
pub open spec fn each_then_dot(values: Seq<Seq<char>>) -> Seq<char>
    decreases values.len(),
{
    if values.len() == 0 {
        Seq::empty()
    } else {
        values[0] + seq!['.'] + each_then_dot(values.drop_first())
    }
}

/// A dot before each value: `.v1.v2...`
pub open spec fn dot_then_each(values: Seq<Seq<char>>) -> Seq<char>
    decreases values.len(),
{
    if values.len() == 0 {
        Seq::empty()
    } else {
        seq!['.'] + values[0] + dot_then_each(values.drop_first())
    }
}

/// The values joined by dots: `v1.v2...`
pub open spec fn join_dots(values: Seq<Seq<char>>) -> Seq<char> {
    if values.len() == 0 {
        Seq::empty()
    } else {
        values[0] + dot_then_each(values.drop_first())
    }
}

/// `s` holds no opening brace.
pub open spec fn brace_free(s: Seq<char>) -> bool {
    forall|i: int| 0 <= i < s.len() ==> s[i] != '{'
}

proof fn lemma_format_plain_prefix(a: Seq<char>, x: Seq<char>, values: Seq<Seq<char>>)
    requires
        brace_free(a),
    ensures
        format_apply(a + x, values) == a + format_apply(x, values),
    decreases a.len(),
{
    if a.len() == 0 {
        assert(a + x =~= x);
        assert(a + format_apply(x, values) =~= format_apply(x, values));
    } else {
        assert((a + x).drop_first() =~= a.drop_first() + x);
        lemma_format_plain_prefix(a.drop_first(), x, values);
        assert(seq![a[0]] + (a.drop_first() + format_apply(x, values)) =~= a + format_apply(
            x,
            values,
        ));
    }
}

proof fn lemma_format_plain(x: Seq<char>, values: Seq<Seq<char>>)
    requires
        brace_free(x),
    ensures
        format_apply(x, values) == x,
{
    lemma_format_plain_prefix(x, Seq::empty(), values);
    assert(x + Seq::<char>::empty() =~= x);
}

proof fn lemma_format_placeholders_dotted(x: Seq<char>, values: Seq<Seq<char>>)
    requires
        brace_free(x),
    ensures
        format_apply(placeholders_dotted(values.len()) + x, values) == each_then_dot(values) + x,
    decreases values.len(),
{
    if values.len() == 0 {
        assert(placeholders_dotted(0) + x =~= x);
        lemma_format_plain(x, values);
        assert(each_then_dot(values) + x =~= x);
    } else {
        let rest = values.drop_first();
        let t = placeholders_dotted(values.len()) + x;
        assert(t =~= seq!['{', '}', '.'] + (placeholders_dotted(rest.len()) + x));
        assert(t.skip(2) =~= seq!['.'] + (placeholders_dotted(rest.len()) + x));
        lemma_format_placeholders_dotted(x, rest);
        lemma_format_plain_prefix(seq!['.'], placeholders_dotted(rest.len()) + x, rest);
        assert(values[0] + (seq!['.'] + (each_then_dot(rest) + x)) =~= each_then_dot(values) + x);
    }
}

proof fn lemma_format_dotted_placeholders(values: Seq<Seq<char>>)
    ensures
        format_apply(dotted_placeholders(values.len()), values) == dot_then_each(values),
    decreases values.len(),
{
    if values.len() > 0 {
        let rest = values.drop_first();
        let t = dotted_placeholders(values.len());
        assert(t =~= seq!['.'] + (seq!['{', '}'] + dotted_placeholders(rest.len())));
        lemma_format_plain_prefix(seq!['.'], seq!['{', '}'] + dotted_placeholders(rest.len()), values);
        let u = seq!['{', '}'] + dotted_placeholders(rest.len());
        assert(u.skip(2) =~= dotted_placeholders(rest.len()));
        lemma_format_dotted_placeholders(rest);
        assert(seq!['.'] + (values[0] + dot_then_each(rest)) =~= dot_then_each(values));
    }
}

/// The subject of an endpoint, once the service parameters have values, is
/// each value followed by a dot, then the endpoint's own subject.
pub proof fn law_subject_expr_evaluates(
    subject: Seq<char>,
    params: Seq<Seq<char>>,
    values: Seq<Seq<char>>,
)
    requires
        brace_free(subject),
        values.len() == params.len(),
    ensures
        eval_subject(subject_expr_spec(subject, params), values) == each_then_dot(values) + subject,
{
    if params.len() == 0 {
        assert(each_then_dot(values) + subject =~= subject);
    } else {
        lemma_format_placeholders_dotted(subject, values);
    }
}

/// A stream's subject prefix, once the service parameters have values, is the
/// values joined by dots.
pub proof fn law_subject_prefix_expr_evaluates(params: Seq<Seq<char>>, values: Seq<Seq<char>>)
    requires
        values.len() == params.len(),
    ensures
        eval_subject(subject_prefix_expr_spec(params), values) == join_dots(values),
{
    if values.len() > 0 {
        let t = placeholders_joined(values.len());
        assert(t.skip(2) =~= dotted_placeholders((values.len() - 1) as nat));
        lemma_format_dotted_placeholders(values.drop_first());
    }
}

/// A generated client reaches the endpoint it was generated for: with the same
/// parameter values, the subject the client requests is the service base name,
/// a dot, and the endpoint subject that the service registers under it
/// (for a base name written without braces, which `format!` would read as
/// placeholders).
pub proof fn law_client_subject_matches_service(
    service_name: Seq<char>,
    subject: Seq<char>,
    params: Seq<Seq<char>>,
    values: Seq<Seq<char>>,
)
    requires
        brace_free(service_name),
    ensures
        eval_subject(client_subject_expr_spec(service_name, subject, params), values) == dot_join(
            service_name,
            eval_subject(subject_expr_spec(subject, params), values),
        ),
{
    match subject_expr_spec(subject, params) {
        SubjectExprView::Literal(_) => {},
        SubjectExprView::Format(t, _) => {
            let head = service_name + seq!['.'];
            assert(brace_free(head));
            assert(service_name + seq!['.'] + t =~= head + t);
            lemma_format_plain_prefix(head, t, values);
            assert(head + format_apply(t, values) =~= dot_join(service_name, format_apply(t, values)));
        },
    }
}

/// The parameters an expression binds, in the order of its placeholders: none
/// for a literal.
pub open spec fn expr_args(e: SubjectExprView) -> Seq<Seq<char>> {
    match e {
        SubjectExprView::Literal(_) => Seq::empty(),
        SubjectExprView::Format(_, a) => a,
    }
}

/// What an expression evaluates to when each parameter `p` has the value
/// `value_of(p)`: its placeholders are filled with the values of the
/// parameters it binds.
pub open spec fn eval_named(e: SubjectExprView, value_of: spec_fn(Seq<char>) -> Seq<char>) -> Seq<
    char,
> {
    eval_subject(e, expr_args(e).map_values(value_of))
}

/// A stream's subject prefix binds the service parameters in their order:
/// with each parameter given a value, the prefix is the parameters' values
/// joined by dots, in the order of the parameters.
pub proof fn law_prefix_binds_params_in_order(
    params: Seq<Seq<char>>,
    value_of: spec_fn(Seq<char>) -> Seq<char>,
)
    ensures
        expr_args(subject_prefix_expr_spec(params)) == params,
        eval_named(subject_prefix_expr_spec(params), value_of) == join_dots(
            params.map_values(value_of),
        ),
{
    law_subject_prefix_expr_evaluates(params, params.map_values(value_of));
}

/// An endpoint subject that names no parameter binds the service parameters
/// in their order: with each parameter given a value, the endpoint listens on
/// the parameters' values, each followed by a dot, in the order of the
/// parameters, then its own subject.
pub proof fn law_endpoint_binds_params_in_order(
    subject: Seq<char>,
    params: Seq<Seq<char>>,
    value_of: spec_fn(Seq<char>) -> Seq<char>,
)
    requires
        brace_free(subject),
    ensures
        params.len() > 0 ==> expr_args(subject_expr_spec(subject, params)) == params,
        eval_named(subject_expr_spec(subject, params), value_of) == each_then_dot(
            params.map_values(value_of),
        ) + subject,
{
    law_subject_expr_evaluates(subject, params, params.map_values(value_of));
    if params.len() == 0 {
        assert(params.map_values(value_of) =~= Seq::<Seq<char>>::empty());
        assert(expr_args(subject_expr_spec(subject, params)).map_values(value_of)
            =~= Seq::<Seq<char>>::empty());
    }
}

/// A generated client binds each placeholder to the same parameter as the
/// endpoint it calls: the client's expression has the endpoint's arguments,
/// in the same order, and for any values of the parameters the client requests
/// the service base name, a dot, and the subject the endpoint listens on
/// (for a base name written without braces).
pub proof fn law_client_binds_like_endpoint(
    service_name: Seq<char>,
    subject: Seq<char>,
    params: Seq<Seq<char>>,
    value_of: spec_fn(Seq<char>) -> Seq<char>,
)
    requires
        brace_free(service_name),
    ensures
        expr_args(client_subject_expr_spec(service_name, subject, params)) == expr_args(
            subject_expr_spec(subject, params),
        ),
        eval_named(client_subject_expr_spec(service_name, subject, params), value_of) == dot_join(
            service_name,
            eval_named(subject_expr_spec(subject, params), value_of),
        ),
{
    let values = expr_args(subject_expr_spec(subject, params)).map_values(value_of);
    law_client_subject_matches_service(service_name, subject, params, values);
}

/// A valid NATS subject as far as its tokens go: non-empty, neither starting
/// nor ending with a dot, and with no two dots in a row, so no token is empty.
pub open spec fn tokens_nonempty(s: Seq<char>) -> bool {
    &&& s.len() > 0
    &&& s[0] != '.'
    &&& s[s.len() - 1] != '.'
    &&& forall|i: int, j: int|
        #![trigger s[i], s[j]]
        0 <= i && j == i + 1 && j < s.len() ==> !(s[i] == '.' && s[j] == '.')
}

/// Every value is a subject whose tokens are non-empty.
pub open spec fn all_tokens_nonempty(values: Seq<Seq<char>>) -> bool {
    forall|k: int| 0 <= k < values.len() ==> tokens_nonempty(#[trigger] values[k])
}

/// Joining two such subjects with a dot gives one.
pub proof fn lemma_dot_join_tokens(a: Seq<char>, b: Seq<char>)
    requires
        tokens_nonempty(a),
        tokens_nonempty(b),
    ensures
        tokens_nonempty(dot_join(a, b)),
{
    let c = dot_join(a, b);
    assert(c.len() == a.len() + 1 + b.len());
    assert(c[0] == a[0]);
    assert(c[c.len() - 1] == b[b.len() - 1]);
    assert forall|i: int, j: int|
        #![trigger c[i], c[j]]
        0 <= i && j == i + 1 && j < c.len() implies !(c[i] == '.' && c[j] == '.') by {
        if j < a.len() {
            assert(c[i] == a[i] && c[j] == a[j]);
        } else if j == a.len() {
            assert(c[i] == a[a.len() - 1]);
        } else if i == a.len() {
            assert(c[j] == b[0]);
        } else {
            let bi = i - a.len() - 1;
            assert(c[i] == b[bi] && c[j] == b[bi + 1]);
        }
    }
}

proof fn lemma_each_then_dot_tokens(values: Seq<Seq<char>>, s: Seq<char>)
    requires
        all_tokens_nonempty(values),
        tokens_nonempty(s),
    ensures
        tokens_nonempty(each_then_dot(values) + s),
    decreases values.len(),
{
    if values.len() == 0 {
        assert(each_then_dot(values) + s =~= s);
    } else {
        let rest = values.drop_first();
        assert(all_tokens_nonempty(rest)) by {
            assert forall|k: int| 0 <= k < rest.len() implies tokens_nonempty(#[trigger] rest[k]) by {
                assert(rest[k] == values[k + 1]);
            }
        }
        lemma_each_then_dot_tokens(rest, s);
        assert(tokens_nonempty(values[0]));
        lemma_dot_join_tokens(values[0], each_then_dot(rest) + s);
        assert(each_then_dot(values) + s =~= dot_join(values[0], each_then_dot(rest) + s));
    }
}

/// The values joined by dots form a subject whose tokens are non-empty.
pub proof fn lemma_join_dots_tokens(values: Seq<Seq<char>>)
    requires
        values.len() > 0,
        all_tokens_nonempty(values),
    ensures
        tokens_nonempty(join_dots(values)),
    decreases values.len(),
{
    let rest = values.drop_first();
    assert(tokens_nonempty(values[0]));
    if rest.len() == 0 {
        assert(join_dots(values) =~= values[0]);
    } else {
        assert(all_tokens_nonempty(rest)) by {
            assert forall|k: int| 0 <= k < rest.len() implies tokens_nonempty(#[trigger] rest[k]) by {
                assert(rest[k] == values[k + 1]);
            }
        }
        lemma_join_dots_tokens(rest);
        assert(dot_then_each(rest) =~= seq!['.'] + join_dots(rest));
        lemma_dot_join_tokens(values[0], join_dots(rest));
        assert(join_dots(values) =~= dot_join(values[0], join_dots(rest)));
    }
}

/// Endpoint subjects have no empty token: when the service name, the
/// endpoint subject (naming no parameter) and the parameter values are
/// subjects without empty tokens, so are the subject the service registers
/// and the one its client requests.
pub proof fn law_endpoint_subjects_have_no_empty_token(
    service_name: Seq<char>,
    subject: Seq<char>,
    params: Seq<Seq<char>>,
    values: Seq<Seq<char>>,
)
    requires
        tokens_nonempty(service_name),
        brace_free(service_name),
        tokens_nonempty(subject),
        brace_free(subject),
        values.len() == params.len(),
        all_tokens_nonempty(values),
    ensures
        tokens_nonempty(dot_join(service_name, eval_subject(subject_expr_spec(subject, params), values))),
        tokens_nonempty(eval_subject(client_subject_expr_spec(service_name, subject, params), values)),
{
    law_subject_expr_evaluates(subject, params, values);
    lemma_each_then_dot_tokens(values, subject);
    lemma_dot_join_tokens(service_name, each_then_dot(values) + subject);
    law_client_subject_matches_service(service_name, subject, params, values);
}

} // verus!
