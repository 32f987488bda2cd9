//! Streams: the JetStream configuration a stream is created with, and the
//! messages a stream handler publishes.

use vstd::prelude::*;

use crate::client::{fresh_ulid_text, is_request_id};
use crate::header::MESSAGE_ID;
use crate::naming::ascii_upper;
use crate::service::pairs_view;
use crate::subject::{
    all_tokens_nonempty, dot_join, eval_subject, law_subject_prefix_expr_evaluates,
    lemma_dot_join_tokens, lemma_join_dots_tokens, subject_prefix_expr_spec, tokens_nonempty,
};
use crate::text::push_char;

verus! {

broadcast use vstd::string::group_string_axioms;

/// What `str::to_uppercase` makes of `s`: its Unicode uppercase form.
pub uninterp spec fn str_uppercase(s: Seq<char>) -> Seq<char>;

/// `str::to_uppercase`. For an ASCII string the result is the ASCII
/// uppercase of each character (`a`-`z` to `A`-`Z`, the others unchanged);
/// beyond ASCII the mapping comes from the Unicode tables and is left to the
/// name.
#[verifier::external_body]
fn uppercase_of_str(s: &str) -> (u: String)
    ensures
        u@ == str_uppercase(s@),
        (forall|i: int| 0 <= i < s@.len() ==> (s@[i] as u32) < 128) ==> u@ == s@.map_values(
            |c: char| ascii_upper(c),
        ),
{
    s.to_uppercase()
}

/// The name of a stream's JetStream configuration: the service name in upper
/// case, an underscore, and the stream name.
pub fn stream_config_name(service_name: &str, stream_name: &str) -> (n: String)
    ensures
        n@ == str_uppercase(service_name@) + seq!['_'] + stream_name@,
        (forall|i: int| 0 <= i < service_name@.len() ==> (service_name@[i] as u32) < 128) ==> n@
            == service_name@.map_values(|c: char| ascii_upper(c)) + seq!['_'] + stream_name@,
{
    let mut n = uppercase_of_str(service_name);
    push_char(&mut n, '_');
    n.append(stream_name);
    n
}

/// The subject prefix of a stream: the service name, then a dot and the
/// service's parameter values joined by dots when the service has parameters.
pub open spec fn stream_prefix_spec(
    service_name: Seq<char>,
    params_prefix: Seq<char>,
    has_params: bool,
) -> Seq<char> {
    if has_params {
        dot_join(service_name, params_prefix)
    } else {
        service_name
    }
}

/// The subject a stream captures: its own subject after the service name and,
/// when the service has parameters, the parameter values.
pub open spec fn stream_capture_spec(
    service_name: Seq<char>,
    params_prefix: Seq<char>,
    has_params: bool,
    stream_subject: Seq<char>,
) -> Seq<char> {
    if has_params {
        service_name + seq!['.'] + params_prefix + seq!['.'] + stream_subject
    } else {
        service_name + seq!['.'] + stream_subject
    }
}

/// The subject of a published message: the prefix, a dot, the subject.
pub open spec fn publish_subject_spec(subject_prefix: Seq<char>, subject: Seq<char>) -> Seq<char> {
    dot_join(subject_prefix, subject)
}

/// The subject prefix a stream handler publishes under: the service name,
/// followed by a dot and the parameter values joined by dots (`params_prefix`)
/// when the service has parameters.
pub fn stream_subject_prefix(service_name: &str, params_prefix: &str, has_params: bool) -> (p:
    String)
    ensures
        p@ == stream_prefix_spec(service_name@, params_prefix@, has_params),
{
    let mut p = service_name.to_string();
    if has_params {
        push_char(&mut p, '.');
        p.append(params_prefix);
    }
    p
}

/// The subject a stream is configured to capture: the stream's subject under
/// the service name and, when the service has parameters, their values.
pub fn stream_config_subject(
    service_name: &str,
    params_prefix: &str,
    has_params: bool,
    stream_subject: &str,
) -> (s: String)
    ensures
        s@ == stream_capture_spec(service_name@, params_prefix@, has_params, stream_subject@),
{
    let mut s = stream_subject_prefix(service_name, params_prefix, has_params);
    push_char(&mut s, '.');
    s.append(stream_subject);
    assert(s@ =~= stream_capture_spec(service_name@, params_prefix@, has_params, stream_subject@));
    s
}

/// The subject a message is published to: the stream's prefix, a dot, and
/// the subject the handler names.
pub fn publish_subject(subject_prefix: &str, subject: &str) -> (s: String)
    ensures
        s@ == publish_subject_spec(subject_prefix@, subject@),
{
    let mut s = subject_prefix.to_string();
    push_char(&mut s, '.');
    s.append(subject);
    s
}

/// What a client subscribes to for a stream: the stream's JetStream
/// configuration by name, filtered to one subject.
pub struct StreamSubscription {
    /// The name of the stream's configuration.
    pub stream: String,
    /// The subject the client's consumer is filtered to.
    pub filter_subject: String,
}

/// What the client's method for a stream subscribes to: the stream configured
/// under `stream_config_name`, filtered to the subject the stream captures,
/// which is where a handler's message sent with the stream's own subject goes.
pub fn stream_subscription(
    service_name: &str,
    params_prefix: &str,
    has_params: bool,
    stream_name: &str,
    stream_subject: &str,
) -> (sub: StreamSubscription)
    ensures
        sub.stream@ == str_uppercase(service_name@) + seq!['_'] + stream_name@,
        sub.filter_subject@ == stream_capture_spec(
            service_name@,
            params_prefix@,
            has_params,
            stream_subject@,
        ),
        sub.filter_subject@ == publish_subject_spec(
            stream_prefix_spec(service_name@, params_prefix@, has_params),
            stream_subject@,
        ),
{
    let stream = stream_config_name(service_name, stream_name);
    let filter_subject = stream_config_subject(service_name, params_prefix, has_params, stream_subject);
    proof {
        law_publish_lands_in_stream(service_name@, params_prefix@, has_params, stream_subject@);
    }
    StreamSubscription { stream, filter_subject }
}

/// The header pairs whose name is not `key`, in order.
pub open spec fn without_key(pairs: Seq<(Seq<char>, Seq<char>)>, key: Seq<char>) -> Seq<
    (Seq<char>, Seq<char>),
>
    decreases pairs.len(),
{
    if pairs.len() == 0 {
        Seq::empty()
    } else if pairs.last().0 == key {
        without_key(pairs.drop_last(), key)
    } else {
        without_key(pairs.drop_last(), key).push(pairs.last())
    }
}

/// Whether a header pair's name differs from `key`.
pub open spec fn name_is_not(key: Seq<char>) -> spec_fn((Seq<char>, Seq<char>)) -> bool {
    |p: (Seq<char>, Seq<char>)| p.0 != key
}

/// Every header pair whose name is not `key` is kept, with its value and in
/// its order, and no other: the pairs without `key` are the pairs filtered by
/// name, so there are as many as there are pairs with another name.
pub proof fn law_without_key_keeps_other_headers(
    pairs: Seq<(Seq<char>, Seq<char>)>,
    key: Seq<char>,
)
    ensures
        without_key(pairs, key) == pairs.filter(name_is_not(key)),
        without_key(pairs, key).len() == pairs.filter(name_is_not(key)).len(),
        forall|i: int|
            0 <= i < without_key(pairs, key).len() ==> (#[trigger] without_key(pairs, key)[i]).0
                != key,
    decreases pairs.len(),
{
    let pred = name_is_not(key);
    if pairs.len() > 0 {
        law_without_key_keeps_other_headers(pairs.drop_last(), key);
        pairs.drop_last().lemma_filter_push(pairs.last(), pred);
        assert(pairs.drop_last().push(pairs.last()) =~= pairs);
    } else {
        reveal(Seq::filter);
        assert(pairs.filter(pred) =~= pairs);
    }
}

/// A message ready to be published.
pub struct PublishPlan {
    pub subject: String,
    pub payload: Vec<u8>,
    pub headers: Vec<(String, String)>,
}

/// Prepares a stream message with the given message id: it goes to the
/// stream's prefix and the given subject, carries the payload unchanged, and
/// carries the given headers with the message id set under `MESSAGE_ID`
/// (replacing any the caller set).
pub fn plan_publish_with_message_id(
    subject_prefix: &str,
    subject: &str,
    payload: Vec<u8>,
    headers: Vec<(String, String)>,
    message_id: String,
) -> (plan: PublishPlan)
    ensures
        plan.subject@ == publish_subject_spec(subject_prefix@, subject@),
        plan.payload@ == payload@,
        pairs_view(plan.headers@) == without_key(pairs_view(headers@), MESSAGE_ID@).push(
            (MESSAGE_ID@, message_id@),
        ),
        pairs_view(plan.headers@) == pairs_view(headers@).filter(name_is_not(MESSAGE_ID@)).push(
            (MESSAGE_ID@, message_id@),
        ),
{
    let key = MESSAGE_ID.to_string();
    let mut kept: Vec<(String, String)> = Vec::new();
    let mut i: usize = 0;
    while i < headers.len()
        invariant
            i <= headers.len(),
            key@ == MESSAGE_ID@,
            pairs_view(kept@) == without_key(pairs_view(headers@.take(i as int)), MESSAGE_ID@),
        decreases headers.len() - i,
    {
        let ghost before = kept@;
        proof {
            assert(pairs_view(headers@.take(i + 1)).drop_last() =~= pairs_view(
                headers@.take(i as int),
            ));
            assert(pairs_view(headers@.take(i + 1)).last() == (headers@[i as int].0@, headers@[i
                as int].1@));
        }
        if headers[i].0 != key {
            let name = headers[i].0.clone();
            let value = headers[i].1.clone();
            kept.push((name, value));
            assert(pairs_view(kept@) =~= pairs_view(before).push(
                (headers@[i as int].0@, headers@[i as int].1@),
            ));
        }
        i = i + 1;
    }
    assert(headers@.take(headers.len() as int) =~= headers@);
    let ghost before = kept@;
    let ghost id_view = message_id@;
    kept.push((key, message_id));
    assert(pairs_view(kept@) =~= pairs_view(before).push((MESSAGE_ID@, id_view)));
    proof {
        law_without_key_keeps_other_headers(pairs_view(headers@), MESSAGE_ID@);
    }
    PublishPlan { subject: publish_subject(subject_prefix, subject), payload, headers: kept }
}

/// Prepares a stream message with a fresh message id, a ULID, so that
/// JetStream's deduplication keeps each message: as
/// `plan_publish_with_message_id`, for an id of the shape the id generator
/// gives. Which id comes out depends on the clock and chance.
pub fn plan_publish(
    subject_prefix: &str,
    subject: &str,
    payload: Vec<u8>,
    headers: Vec<(String, String)>,
) -> (plan: PublishPlan)
    ensures
        plan.subject@ == publish_subject_spec(subject_prefix@, subject@),
        plan.payload@ == payload@,
        plan.headers@.len() > 0,
        pairs_view(plan.headers@) == without_key(pairs_view(headers@), MESSAGE_ID@).push(
            (MESSAGE_ID@, plan.headers@.last().1@),
        ),
        pairs_view(plan.headers@) == pairs_view(headers@).filter(name_is_not(MESSAGE_ID@)).push(
            (MESSAGE_ID@, plan.headers@.last().1@),
        ),
        is_request_id(plan.headers@.last().1@),
{
    let id = fresh_ulid_text();
    let ghost id_view = id@;
    let plan = plan_publish_with_message_id(subject_prefix, subject, payload, headers, id);
    assert(pairs_view(plan.headers@).last() == (MESSAGE_ID@, id_view));
    assert(plan.headers@.last().1@ == id_view);
    plan
}

/// A message a stream handler sends with the stream's own subject lands on the
/// subject the stream was configured to capture.
pub proof fn law_publish_lands_in_stream(
    service_name: Seq<char>,
    params_prefix: Seq<char>,
    has_params: bool,
    stream_subject: Seq<char>,
)
    ensures
        publish_subject_spec(stream_prefix_spec(service_name, params_prefix, has_params), stream_subject)
            == stream_capture_spec(service_name, params_prefix, has_params, stream_subject),
{
    assert(publish_subject_spec(stream_prefix_spec(service_name, params_prefix, has_params), stream_subject)
        =~= stream_capture_spec(service_name, params_prefix, has_params, stream_subject));
}

/// Stream subjects have no empty token: when the service name, the stream
/// subject and the parameter values are subjects without empty tokens, the
/// stream's prefix, the subject it captures and the subject a message sent
/// with the stream's subject goes to have none either, with or without
/// parameters.
pub proof fn law_stream_subjects_have_no_empty_token(
    service_name: Seq<char>,
    params: Seq<Seq<char>>,
    values: Seq<Seq<char>>,
    stream_subject: Seq<char>,
)
    requires
        tokens_nonempty(service_name),
        tokens_nonempty(stream_subject),
        values.len() == params.len(),
        all_tokens_nonempty(values),
    ensures
        ({
            let pp = eval_subject(subject_prefix_expr_spec(params), values);
            let has_params = params.len() > 0;
            &&& tokens_nonempty(stream_prefix_spec(service_name, pp, has_params))
            &&& tokens_nonempty(stream_capture_spec(service_name, pp, has_params, stream_subject))
            &&& tokens_nonempty(
                publish_subject_spec(stream_prefix_spec(service_name, pp, has_params), stream_subject),
            )
        }),
{
    law_subject_prefix_expr_evaluates(params, values);
    let pp = eval_subject(subject_prefix_expr_spec(params), values);
    let has_params = params.len() > 0;
    if has_params {
        lemma_join_dots_tokens(values);
        lemma_dot_join_tokens(service_name, pp);
    }
    let prefix = stream_prefix_spec(service_name, pp, has_params);
    lemma_dot_join_tokens(prefix, stream_subject);
    law_publish_lands_in_stream(service_name, pp, has_params, stream_subject);
}

} // verus!
