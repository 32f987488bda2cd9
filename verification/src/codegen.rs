//! The plan of what the `service` macro generates for a trait: which methods
//! are endpoints and streams, the names of the generated items, the types and
//! the subject expressions. The macro reads the trait into plain values, asks
//! for the plan, and writes the code the plan describes.

use vstd::prelude::*;

use crate::attrs::{
    apply_endpoint_attr, apply_stream_attr, clone_opt, endpoint_attr_scan, opt_view, stream_attr_scan,
    MetaArg, ServiceArgs, StreamAttrs, StreamAttrsView,
};
use crate::naming::{pascal_case, snake_to_pascal};
use crate::subject::{
    build_client_subject_expr, build_subject_expr, build_subject_prefix_expr,
    client_subject_expr_spec, subject_expr_spec, subject_prefix_expr_spec, SubjectExpr,
    SubjectExprView,
};
use crate::template::{before_first_dot, extract_template_params, service_base_name, template_params};
use crate::text::{clone_strings, push_char};
use crate::types::{
    extract_request_type, extract_response_type, request_type_spec, response_type_spec, TypeModel,
};

verus! {

broadcast use vstd::string::group_string_axioms;

/// Which attribute an attribute of a trait method is.
#[derive(Clone, Copy, PartialEq, Eq, Structural)]
pub enum AttrKind {
    /// `#[endpoint(..)]`
    Endpoint,
    /// `#[stream(..)]`
    Stream,
    /// Any other attribute, kept on the method.
    Other,
}

/// An attribute of a trait method.
pub struct AttrModel {
    pub kind: AttrKind,
    /// The attribute's `key = value` items (empty for other attributes).
    pub args: Vec<MetaArg>,
}

/// A method of the service trait, as the macro reads it.
pub struct MethodModel {
    /// The method's identifier.
    pub name: String,
    /// Its attributes, in order.
    pub attrs: Vec<AttrModel>,
    /// How many inputs it takes.
    pub input_count: usize,
    /// The type of its second input, when that input is a typed argument.
    pub body_type: Option<TypeModel>,
    /// Its return type, when one is written.
    pub output: Option<TypeModel>,
    /// Whether it is declared `async`.
    pub is_async: bool,
}

/// What the method's attributes set, read in order: the endpoint subject and
/// the stream items.
pub open spec fn method_attrs_scan(
    attrs: Seq<AttrModel>,
    endpoint: Option<Seq<char>>,
    stream: StreamAttrsView,
) -> (Option<Seq<char>>, StreamAttrsView)
    decreases attrs.len(),
{
    if attrs.len() == 0 {
        (endpoint, stream)
    } else {
        let a = attrs[0];
        match a.kind {
            AttrKind::Endpoint => method_attrs_scan(
                attrs.drop_first(),
                endpoint_attr_scan(a.args@, endpoint),
                stream,
            ),
            AttrKind::Stream => method_attrs_scan(
                attrs.drop_first(),
                endpoint,
                stream_attr_scan(a.args@, stream),
            ),
            AttrKind::Other => method_attrs_scan(attrs.drop_first(), endpoint, stream),
        }
    }
}

/// Nothing set yet.
pub open spec fn no_stream_attrs() -> StreamAttrsView {
    StreamAttrsView { name: None, subject: None, storage: None, message: None }
}

/// The endpoint subject a method's attributes set, if any.
pub open spec fn endpoint_subject_of(m: MethodModel) -> Option<Seq<char>> {
    method_attrs_scan(m.attrs@, None, no_stream_attrs()).0
}

/// The stream items a method's attributes set.
pub open spec fn stream_attrs_of(m: MethodModel) -> StreamAttrsView {
    method_attrs_scan(m.attrs@, None, no_stream_attrs()).1
}

/// The method is an endpoint: an `endpoint` attribute gave it a subject.
pub open spec fn is_endpoint(m: MethodModel) -> bool {
    endpoint_subject_of(m) is Some
}

/// The method is a stream: its `stream` attributes gave it a name and a
/// subject.
pub open spec fn is_stream(m: MethodModel) -> bool {
    stream_attrs_of(m).name is Some && stream_attrs_of(m).subject is Some
}

/// The method's `async` is replaced by an `impl Future<Output = T> + Send`
/// return type: it is async, has a return type, and is a stream or an
/// endpoint.
pub open spec fn rewrites_output(m: MethodModel) -> bool {
    m.is_async && m.output is Some && (is_stream(m) || is_endpoint(m))
}

/// `()`
pub open spec fn unit_type() -> Seq<char> {
    seq!['(', ')']
}

/// The request type of an endpoint: `T` of a second argument `Request<T>`,
/// else `()`.
pub open spec fn request_type_of(m: MethodModel) -> Seq<char> {
    if m.input_count > 1 {
        match m.body_type {
            Some(t) => match request_type_spec(t) {
                Some(r) => r,
                None => unit_type(),
            },
            None => unit_type(),
        }
    } else {
        unit_type()
    }
}

/// The response type of an endpoint: `T` of the return type written as
/// `Result<Response<T>, E>`, else `()`.
pub open spec fn response_type_of(m: MethodModel) -> Seq<char> {
    match m.output {
        Some(t) => match response_type_spec(t) {
            Some(r) => r,
            None => unit_type(),
        },
        None => unit_type(),
    }
}

/// What the macro does to one method's signature.
pub struct MethodPlan {
    /// For each attribute, whether it stays on the method (the `endpoint`
    /// and `stream` attributes are consumed).
    pub keep_attrs: Vec<bool>,
    /// Whether `async` is dropped and the return type `T` becomes
    /// `impl Future<Output = T> + Send`.
    pub rewrite_output: bool,
}

/// An endpoint to generate.
pub struct EndpointPlan {
    /// The trait method.
    pub method: String,
    /// The handler type: the method name in PascalCase, then `Handler`.
    pub handler: String,
    /// The endpoint subject, relative to the service.
    pub subject: String,
    /// Whether the method takes a request body.
    pub has_body: bool,
    /// The request body type.
    pub request_type: String,
    /// The response type.
    pub response_type: String,
    /// The registered subject, under the service's parameters.
    pub subject_expr: SubjectExpr,
    /// The subject a generated client requests.
    pub client_subject_expr: SubjectExpr,
}

/// The mathematical form of an `EndpointPlan`.
pub struct EndpointPlanView {
    pub method: Seq<char>,
    pub handler: Seq<char>,
    pub subject: Seq<char>,
    pub has_body: bool,
    pub request_type: Seq<char>,
    pub response_type: Seq<char>,
    pub subject_expr: SubjectExprView,
    pub client_subject_expr: SubjectExprView,
}

impl View for EndpointPlan {
    type V = EndpointPlanView;

    open spec fn view(&self) -> EndpointPlanView {
        EndpointPlanView {
            method: self.method@,
            handler: self.handler@,
            subject: self.subject@,
            has_body: self.has_body,
            request_type: self.request_type@,
            response_type: self.response_type@,
            subject_expr: self.subject_expr@,
            client_subject_expr: self.client_subject_expr@,
        }
    }
}

/// A stream to generate.
pub struct StreamPlan {
    /// The trait method.
    pub method: String,
    /// The handler type: the method name in PascalCase, then `StreamHandler`.
    pub handler: String,
    /// The stream name.
    pub name: String,
    /// The stream subject.
    pub subject: String,
    /// The storage type's path; file storage when absent.
    pub storage: Option<String>,
    /// The message type, if given.
    pub message: Option<String>,
    /// The type of the items the client's method for the stream yields: the
    /// message type, `()` when none is given.
    pub item_type: String,
}

/// The mathematical form of a `StreamPlan`.
pub struct StreamPlanView {
    pub method: Seq<char>,
    pub handler: Seq<char>,
    pub name: Seq<char>,
    pub subject: Seq<char>,
    pub storage: Option<Seq<char>>,
    pub message: Option<Seq<char>>,
    pub item_type: Seq<char>,
}

impl View for StreamPlan {
    type V = StreamPlanView;

    open spec fn view(&self) -> StreamPlanView {
        StreamPlanView {
            method: self.method@,
            handler: self.handler@,
            name: self.name@,
            subject: self.subject@,
            storage: opt_view(self.storage),
            message: opt_view(self.message),
            item_type: self.item_type@,
        }
    }
}

/// The endpoint generated for a method.
pub open spec fn endpoint_plan_spec(
    m: MethodModel,
    service_name: Seq<char>,
    params: Seq<Seq<char>>,
) -> EndpointPlanView {
    let subject = endpoint_subject_of(m)->0;
    EndpointPlanView {
        method: m.name@,
        handler: pascal_case(m.name@) + "Handler"@,
        subject,
        has_body: m.input_count > 1,
        request_type: request_type_of(m),
        response_type: response_type_of(m),
        subject_expr: subject_expr_spec(subject, params),
        client_subject_expr: client_subject_expr_spec(service_name, subject, params),
    }
}

/// The stream generated for a method.
pub open spec fn stream_plan_spec(m: MethodModel) -> StreamPlanView {
    let st = stream_attrs_of(m);
    StreamPlanView {
        method: m.name@,
        handler: pascal_case(m.name@) + "StreamHandler"@,
        name: st.name->0,
        subject: st.subject->0,
        storage: st.storage,
        message: st.message,
        item_type: match st.message {
            Some(t) => t,
            None => unit_type(),
        },
    }
}

/// The endpoints of the methods, in order.
pub open spec fn endpoints_spec(
    methods: Seq<MethodModel>,
    service_name: Seq<char>,
    params: Seq<Seq<char>>,
) -> Seq<EndpointPlanView>
    decreases methods.len(),
{
    if methods.len() == 0 {
        Seq::empty()
    } else {
        let prev = endpoints_spec(methods.drop_last(), service_name, params);
        if is_endpoint(methods.last()) {
            prev.push(endpoint_plan_spec(methods.last(), service_name, params))
        } else {
            prev
        }
    }
}

/// The streams of the methods, in order.
pub open spec fn streams_spec(methods: Seq<MethodModel>) -> Seq<StreamPlanView>
    decreases methods.len(),
{
    if methods.len() == 0 {
        Seq::empty()
    } else {
        let prev = streams_spec(methods.drop_last());
        if is_stream(methods.last()) {
            prev.push(stream_plan_spec(methods.last()))
        } else {
            prev
        }
    }
}

/// Every method that is a stream gets a stream plan of its own, in method
/// order: the planned streams are exactly the methods whose stream attributes
/// set a name and a subject, each planned from its own method.
pub proof fn law_streams_are_the_stream_methods(methods: Seq<MethodModel>)
    ensures
        streams_spec(methods) == methods.filter(|m: MethodModel| is_stream(m)).map_values(
            |m: MethodModel| stream_plan_spec(m),
        ),
        streams_spec(methods).len() == methods.filter(|m: MethodModel| is_stream(m)).len(),
    decreases methods.len(),
{
    let pred = |m: MethodModel| is_stream(m);
    let plan = |m: MethodModel| stream_plan_spec(m);
    if methods.len() > 0 {
        law_streams_are_the_stream_methods(methods.drop_last());
        let prev = methods.drop_last().filter(pred);
        methods.drop_last().lemma_filter_push(methods.last(), pred);
        assert(methods.drop_last().push(methods.last()) =~= methods);
        if pred(methods.last()) {
            assert(prev.push(methods.last()).map_values(plan) =~= prev.map_values(plan).push(
                plan(methods.last()),
            ));
        }
    } else {
        reveal(Seq::filter);
        assert(methods.filter(pred) =~= Seq::<MethodModel>::empty());
        assert(methods.filter(pred).map_values(plan) =~= Seq::<StreamPlanView>::empty());
    }
}

/// A stream method added after any others adds its own plan after theirs,
/// whatever came before.
pub proof fn law_stream_method_appends_its_plan(methods: Seq<MethodModel>, m: MethodModel)
    requires
        is_stream(m),
    ensures
        streams_spec(methods.push(m)) == streams_spec(methods).push(stream_plan_spec(m)),
{
    assert(methods.push(m).drop_last() =~= methods);
}

/// Every method that is an endpoint gets an endpoint plan of its own, in
/// method order: the planned endpoints are exactly the methods with an
/// endpoint subject, each planned from its own method.
pub proof fn law_endpoints_are_the_endpoint_methods(
    methods: Seq<MethodModel>,
    service_name: Seq<char>,
    params: Seq<Seq<char>>,
)
    ensures
        endpoints_spec(methods, service_name, params) == methods.filter(
            |m: MethodModel| is_endpoint(m),
        ).map_values(|m: MethodModel| endpoint_plan_spec(m, service_name, params)),
        endpoints_spec(methods, service_name, params).len() == methods.filter(
            |m: MethodModel| is_endpoint(m),
        ).len(),
    decreases methods.len(),
{
    let pred = |m: MethodModel| is_endpoint(m);
    let plan = |m: MethodModel| endpoint_plan_spec(m, service_name, params);
    if methods.len() > 0 {
        law_endpoints_are_the_endpoint_methods(methods.drop_last(), service_name, params);
        let prev = methods.drop_last().filter(pred);
        methods.drop_last().lemma_filter_push(methods.last(), pred);
        assert(methods.drop_last().push(methods.last()) =~= methods);
        if pred(methods.last()) {
            assert(prev.push(methods.last()).map_values(plan) =~= prev.map_values(plan).push(
                plan(methods.last()),
            ));
        }
    } else {
        reveal(Seq::filter);
        assert(methods.filter(pred) =~= Seq::<MethodModel>::empty());
        assert(methods.filter(pred).map_values(plan) =~= Seq::<EndpointPlanView>::empty());
    }
}

/// Reads a method's attributes in order into its endpoint subject and stream
/// items.
pub fn read_method_attrs(m: &MethodModel) -> (r: (Option<String>, StreamAttrs))
    ensures
        (opt_view(r.0), r.1@) == method_attrs_scan(m.attrs@, None, no_stream_attrs()),
{
    let mut endpoint: Option<String> = None;
    let mut stream = StreamAttrs { name: None, subject: None, storage: None, message: None };
    let mut i: usize = 0;
    assert(m.attrs@.skip(0) =~= m.attrs@);
    while i < m.attrs.len()
        invariant
            i <= m.attrs.len(),
            method_attrs_scan(m.attrs@, None, no_stream_attrs()) == method_attrs_scan(
                m.attrs@.skip(i as int),
                opt_view(endpoint),
                stream@,
            ),
        decreases m.attrs.len() - i,
    {
        let a = &m.attrs[i];
        proof {
            assert(m.attrs@.skip(i as int).drop_first() =~= m.attrs@.skip(i + 1));
            assert(m.attrs@.skip(i as int)[0] == m.attrs@[i as int]);
        }
        match a.kind {
            AttrKind::Endpoint => {
                endpoint = apply_endpoint_attr(endpoint, &a.args);
            },
            AttrKind::Stream => {
                stream = apply_stream_attr(stream, &a.args);
            },
            AttrKind::Other => {},
        }
        i = i + 1;
    }
    assert(m.attrs@.skip(i as int) =~= Seq::<AttrModel>::empty());
    (endpoint, stream)
}

fn unit_type_text() -> (s: String)
    ensures
        s@ == unit_type(),
{
    let mut s = String::new();
    push_char(&mut s, '(');
    push_char(&mut s, ')');
    assert(s@ =~= unit_type());
    s
}

/// `name` followed by `suffix`.
fn suffixed(name: &str, suffix: &str) -> (s: String)
    ensures
        s@ == name@ + suffix@,
{
    let mut s = name.to_string();
    s.append(suffix);
    s
}

/// What the macro does to a method's signature: it consumes the `endpoint`
/// and `stream` attributes, and turns an async endpoint or stream with a
/// return type into one returning `impl Future<Output = T> + Send`.
pub fn plan_method(m: &MethodModel) -> (p: MethodPlan)
    ensures
        p.keep_attrs@.len() == m.attrs@.len(),
        forall|i: int| 0 <= i < m.attrs@.len() ==> p.keep_attrs@[i] == (m.attrs@[i].kind
            == AttrKind::Other),
        p.rewrite_output == rewrites_output(*m),
{
    let mut keep: Vec<bool> = Vec::new();
    let mut i: usize = 0;
    while i < m.attrs.len()
        invariant
            i <= m.attrs.len(),
            keep@.len() == i,
            forall|j: int| 0 <= j < i ==> keep@[j] == (m.attrs@[j].kind == AttrKind::Other),
        decreases m.attrs.len() - i,
    {
        let k = m.attrs[i].kind;
        keep.push(k == AttrKind::Other);
        i = i + 1;
    }
    let (endpoint, stream) = read_method_attrs(m);
    let is_stream = stream.name.is_some() && stream.subject.is_some();
    let rewrite = m.is_async && m.output.is_some() && (is_stream || endpoint.is_some());
    MethodPlan { keep_attrs: keep, rewrite_output: rewrite }
}

/// The request type of an endpoint method.
fn request_type_text(m: &MethodModel) -> (s: String)
    ensures
        s@ == request_type_of(*m),
{
    if m.input_count > 1 {
        match &m.body_type {
            Some(t) => match extract_request_type(t) {
                Some(r) => r,
                None => unit_type_text(),
            },
            None => unit_type_text(),
        }
    } else {
        unit_type_text()
    }
}

/// The response type of an endpoint method.
fn response_type_text(m: &MethodModel) -> (s: String)
    ensures
        s@ == response_type_of(*m),
{
    match &m.output {
        Some(t) => match extract_response_type(t) {
            Some(r) => r,
            None => unit_type_text(),
        },
        None => unit_type_text(),
    }
}

/// Plans the endpoint of a method that is one.
fn plan_endpoint(
    m: &MethodModel,
    subject: &String,
    service_name: &str,
    params: &Vec<String>,
) -> (e: EndpointPlan)
    requires
        endpoint_subject_of(*m) == Some(subject@),
    ensures
        e@ == endpoint_plan_spec(*m, service_name@, params.deep_view()),
{
    let pascal = snake_to_pascal(m.name.as_str());
    EndpointPlan {
        method: m.name.clone(),
        handler: suffixed(pascal.as_str(), "Handler"),
        subject: subject.clone(),
        has_body: m.input_count > 1,
        request_type: request_type_text(m),
        response_type: response_type_text(m),
        subject_expr: build_subject_expr(subject.as_str(), params),
        client_subject_expr: build_client_subject_expr(service_name, subject.as_str(), params),
    }
}

/// Plans the stream of a method that is one.
fn plan_stream(m: &MethodModel, attrs: &StreamAttrs) -> (s: StreamPlan)
    requires
        attrs@ == stream_attrs_of(*m),
        is_stream(*m),
    ensures
        s@ == stream_plan_spec(*m),
{
    let pascal = snake_to_pascal(m.name.as_str());
    let name = match &attrs.name {
        Some(n) => n.clone(),
        None => String::new(),
    };
    let subject = match &attrs.subject {
        Some(n) => n.clone(),
        None => String::new(),
    };
    StreamPlan {
        method: m.name.clone(),
        handler: suffixed(pascal.as_str(), "StreamHandler"),
        name,
        subject,
        storage: clone_opt(&attrs.storage),
        message: clone_opt(&attrs.message),
        item_type: match &attrs.message {
            Some(t) => t.clone(),
            None => unit_type_text(),
        },
    }
}

/// Everything the `service` macro generates for a trait.
pub struct ServicePlan {
    /// The service's base name: the template before its first dot.
    pub name: String,
    /// The service version.
    pub version: String,
    /// The template's parameters, in order.
    pub params: Vec<String>,
    /// The extension trait holding `service()`: the trait's name, then `Ext`.
    pub ext_trait: String,
    /// The generated client: the trait's name, then `Client`.
    pub client: String,
    /// The subject prefix expression shared by the service's streams.
    pub prefix_expr: SubjectExpr,
    /// One entry per trait method, in order.
    pub methods: Vec<MethodPlan>,
    /// The endpoints, in method order.
    pub endpoints: Vec<EndpointPlan>,
    /// The streams, in method order.
    pub streams: Vec<StreamPlan>,
}

/// The plan of each method, in order.
pub open spec fn method_plans_match(plans: Seq<MethodPlan>, methods: Seq<MethodModel>) -> bool {
    &&& plans.len() == methods.len()
    &&& forall|i: int|
        0 <= i < methods.len() ==> {
            &&& (#[trigger] plans[i]).rewrite_output == rewrites_output(methods[i])
            &&& plans[i].keep_attrs@.len() == methods[i].attrs@.len()
            &&& forall|j: int|
                0 <= j < methods[i].attrs@.len() ==> plans[i].keep_attrs@[j] == (
                methods[i].attrs@[j].kind == AttrKind::Other)
        }
}

/// Plans the code generated for the service trait `trait_name` with the
/// given attribute arguments and methods.
pub fn plan_service(trait_name: &str, args: &ServiceArgs, methods: &Vec<MethodModel>) -> (plan:
    ServicePlan)
    ensures
        plan.name@ == before_first_dot(args.name@),
        plan.version@ == args.version@,
        plan.params.deep_view() == template_params(args.name@),
        plan.ext_trait@ == trait_name@ + "Ext"@,
        plan.client@ == trait_name@ + "Client"@,
        plan.prefix_expr@ == subject_prefix_expr_spec(template_params(args.name@)),
        method_plans_match(plan.methods@, methods@),
        plan.endpoints@.map_values(|e: EndpointPlan| e@) == endpoints_spec(
            methods@,
            before_first_dot(args.name@),
            template_params(args.name@),
        ),
        plan.streams@.map_values(|s: StreamPlan| s@) == streams_spec(methods@),
        plan.streams@.map_values(|s: StreamPlan| s@) == methods@.filter(
            |m: MethodModel| is_stream(m),
        ).map_values(|m: MethodModel| stream_plan_spec(m)),
        plan.endpoints@.map_values(|e: EndpointPlan| e@) == methods@.filter(
            |m: MethodModel| is_endpoint(m),
        ).map_values(
            |m: MethodModel|
                endpoint_plan_spec(m, before_first_dot(args.name@), template_params(args.name@)),
        ),
{
    let params = extract_template_params(args.name.as_str());
    let name = service_base_name(args.name.as_str());
    let ghost base = before_first_dot(args.name@);
    let ghost ps = template_params(args.name@);
    let mut method_plans: Vec<MethodPlan> = Vec::new();
    let mut endpoints: Vec<EndpointPlan> = Vec::new();
    let mut streams: Vec<StreamPlan> = Vec::new();
    let mut i: usize = 0;
    while i < methods.len()
        invariant
            i <= methods.len(),
            name@ == base,
            params.deep_view() == ps,
            method_plans_match(method_plans@, methods@.take(i as int)),
            endpoints@.map_values(|e: EndpointPlan| e@) == endpoints_spec(
                methods@.take(i as int),
                base,
                ps,
            ),
            streams@.map_values(|s: StreamPlan| s@) == streams_spec(methods@.take(i as int)),
        decreases methods.len() - i,
    {
        let m = &methods[i];
        proof {
            assert(methods@.take(i + 1).drop_last() =~= methods@.take(i as int));
            assert(methods@.take(i + 1).last() == methods@[i as int]);
        }
        let mp = plan_method(m);
        method_plans.push(mp);
        let (endpoint, stream) = read_method_attrs(m);
        let ghost eps_before = endpoints@;
        match &endpoint {
            Some(subject) => {
                let e = plan_endpoint(m, subject, name.as_str(), &params);
                endpoints.push(e);
                assert(endpoints@.map_values(|e: EndpointPlan| e@) =~= eps_before.map_values(
                    |e: EndpointPlan| e@,
                ).push(endpoint_plan_spec(*m, base, ps)));
            },
            None => {},
        }
        let ghost sts_before = streams@;
        if stream.name.is_some() && stream.subject.is_some() {
            let sp = plan_stream(m, &stream);
            streams.push(sp);
            assert(streams@.map_values(|s: StreamPlan| s@) =~= sts_before.map_values(
                |s: StreamPlan| s@,
            ).push(stream_plan_spec(*m)));
        }
        i = i + 1;
        proof {
            assert forall|k: int| 0 <= k < i implies {
                &&& (#[trigger] method_plans@[k]).rewrite_output == rewrites_output(
                    methods@.take(i as int)[k],
                )
                &&& method_plans@[k].keep_attrs@.len() == methods@.take(i as int)[k].attrs@.len()
                &&& forall|j: int|
                    0 <= j < methods@.take(i as int)[k].attrs@.len()
                        ==> method_plans@[k].keep_attrs@[j] == (methods@.take(
                        i as int,
                    )[k].attrs@[j].kind == AttrKind::Other)
            } by {
                if k < i - 1 {
                    assert(methods@.take(i as int)[k] == methods@.take(i - 1)[k]);
                }
            }
        }
    }
    assert(methods@.take(methods.len() as int) =~= methods@);
    proof {
        law_streams_are_the_stream_methods(methods@);
        law_endpoints_are_the_endpoint_methods(methods@, base, ps);
    }
    ServicePlan {
        name,
        version: args.version.clone(),
        params: clone_strings(&params),
        ext_trait: suffixed(trait_name, "Ext"),
        client: suffixed(trait_name, "Client"),
        prefix_expr: build_subject_prefix_expr(&params),
        methods: method_plans,
        endpoints,
        streams,
    }
}

proof fn lemma_endpoints_are_planned(
    methods: Seq<MethodModel>,
    service_name: Seq<char>,
    params: Seq<Seq<char>>,
    k: int,
)
    requires
        0 <= k < endpoints_spec(methods, service_name, params).len(),
    ensures
        exists|m: MethodModel|
            is_endpoint(m) && endpoints_spec(methods, service_name, params)[k]
                == endpoint_plan_spec(m, service_name, params),
    decreases methods.len(),
{
    let prev = endpoints_spec(methods.drop_last(), service_name, params);
    if k < prev.len() {
        lemma_endpoints_are_planned(methods.drop_last(), service_name, params, k);
    } else {
        let m = methods.last();
        assert(is_endpoint(m) && endpoints_spec(methods, service_name, params)[k]
            == endpoint_plan_spec(m, service_name, params));
    }
}

/// Every generated client method reaches its endpoint: for the values the
/// service parameters take, the subject the client requests is the service's
/// base name, a dot, and the subject the endpoint is registered under
/// (for a base name written without braces).
pub proof fn law_generated_client_reaches_endpoint(
    methods: Seq<MethodModel>,
    template: Seq<char>,
    values: Seq<Seq<char>>,
    k: int,
)
    requires
        0 <= k < endpoints_spec(methods, before_first_dot(template), template_params(template)).len(),
        crate::subject::brace_free(before_first_dot(template)),
    ensures
        ({
            let e = endpoints_spec(methods, before_first_dot(template), template_params(template))[k];
            crate::subject::eval_subject(e.client_subject_expr, values) == crate::subject::dot_join(
                before_first_dot(template),
                crate::subject::eval_subject(e.subject_expr, values),
            )
        }),
{
    let base = before_first_dot(template);
    let ps = template_params(template);
    lemma_endpoints_are_planned(methods, base, ps, k);
    let e = endpoints_spec(methods, base, ps)[k];
    crate::subject::law_client_subject_matches_service(base, e.subject, ps, values);
}

} // verus!
