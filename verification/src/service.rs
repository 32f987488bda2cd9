//! Service state and the decisions taken around each request: the subject an
//! endpoint is registered under, the request id handed to the handler, and the
//! reply that goes back.

use vstd::prelude::*;

use crate::header::{REQUEST_ID, SERVICE_UID, VERSION};
use crate::subject::dot_join;
use crate::text::{push_char, same_text};

verus! {

broadcast use vstd::string::group_string_axioms;

/// Marker trait for service context types.
pub trait ServiceContext: Send + Sync + 'static {

}

impl<T: Send + Sync + 'static> ServiceContext for T {

}

/// Shared service state.
pub struct ServiceState<Context: ServiceContext> {
    /// Service-specific state
    private: Context,
    /// Service unique id.
    pub uid: String,
}

impl<Context: ServiceContext> ServiceState<Context> {
    /// The state of a service with the given context and unique id.
    pub fn new(context: Context, uid: String) -> (s: Self)
        ensures
            s.context_spec() == context,
            s.uid_spec() == uid@,
    {
        ServiceState { private: context, uid }
    }

    /// The service's unique id.
    pub closed spec fn uid_spec(&self) -> Seq<char> {
        self.uid@
    }

    /// The service-specific context.
    pub closed spec fn context_spec(&self) -> Context {
        self.private
    }

    /// The service-specific context.
    pub fn context(&self) -> (c: &Context)
        ensures
            *c == self.context_spec(),
    {
        &self.private
    }
}

/// The NATS subject an endpoint is registered under: the service name, a dot,
/// and the endpoint subject.
pub fn endpoint_subject(service_name: &str, subject: &str) -> (s: String)
    ensures
        s@ == dot_join(service_name@, subject@),
{
    let mut s = service_name.to_string();
    push_char(&mut s, '.');
    s.append(subject);
    s
}

/// The version of this library, which services report in their metadata.
pub const LIBRARY_VERSION: &'static str = "0.1.1";

/// The metadata a service is started with: the library version under
/// `VERSION`.
pub fn service_metadata() -> (m: Vec<(String, String)>)
    ensures
        pairs_view(m@) == seq![(VERSION@, LIBRARY_VERSION@)],
{
    let mut m: Vec<(String, String)> = Vec::new();
    m.push((VERSION.to_string(), LIBRARY_VERSION.to_string()));
    assert(pairs_view(m@) =~= seq![(VERSION@, LIBRARY_VERSION@)]);
    m
}

/// The request id a handler sees: the one the request carried, or the empty
/// string when it carried none.
pub fn handler_request_id(request_id: Option<&str>) -> (id: String)
    ensures
        id@ == match request_id {
            Some(r) => r@,
            None => Seq::empty(),
        },
{
    match request_id {
        Some(r) => r.to_string(),
        None => String::new(),
    }
}

/// The value of the first header named `name`, if any.
pub open spec fn header_lookup(pairs: Seq<(Seq<char>, Seq<char>)>, name: Seq<char>) -> Option<
    Seq<char>,
>
    decreases pairs.len(),
{
    if pairs.len() == 0 {
        None
    } else if pairs[0].0 == name {
        Some(pairs[0].1)
    } else {
        header_lookup(pairs.drop_first(), name)
    }
}

/// Finds the value of the first header named `name`.
pub fn find_header(headers: &Vec<(String, String)>, name: &str) -> (v: Option<String>)
    ensures
        match v {
            Some(s) => header_lookup(pairs_view(headers@), name@) == Some(s@),
            None => header_lookup(pairs_view(headers@), name@) is None,
        },
{
    let mut i: usize = 0;
    assert(headers@.skip(0) =~= headers@);
    while i < headers.len()
        invariant
            i <= headers.len(),
            header_lookup(pairs_view(headers@), name@) == header_lookup(
                pairs_view(headers@.skip(i as int)),
                name@,
            ),
        decreases headers.len() - i,
    {
        proof {
            assert(pairs_view(headers@.skip(i as int)).drop_first() =~= pairs_view(
                headers@.skip(i + 1),
            ));
            assert(pairs_view(headers@.skip(i as int))[0] == (headers@[i as int].0@, headers@[i
                as int].1@));
        }
        if same_text(&headers[i].0, name) {
            return Some(headers[i].1.clone());
        }
        i = i + 1;
    }
    assert(pairs_view(headers@.skip(i as int)) =~= Seq::<(Seq<char>, Seq<char>)>::empty());
    None
}

/// An error reply: a status text and a code.
pub struct ServiceFailure {
    pub status: String,
    pub code: usize,
}

/// The reply to one request.
pub struct ReplyPlan {
    /// Headers, in the order they are set.
    pub headers: Vec<(String, String)>,
    /// The body on success, the failure otherwise.
    pub body: Result<Vec<u8>, ServiceFailure>,
}

/// The headers of a reply: the service's uid, then the request id if the
/// request carried one.
pub open spec fn reply_headers_spec(service_uid: Seq<char>, request_id: Option<Seq<char>>) -> Seq<
    (Seq<char>, Seq<char>),
> {
    match request_id {
        Some(id) => seq![(SERVICE_UID@, service_uid), (REQUEST_ID@, id)],
        None => seq![(SERVICE_UID@, service_uid)],
    }
}

/// The mathematical form of a list of header pairs.
pub open spec fn pairs_view(pairs: Seq<(String, String)>) -> Seq<(Seq<char>, Seq<char>)> {
    pairs.map_values(|p: (String, String)| (p.0@, p.1@))
}

/// Builds the reply to a request from the handler's outcome: the response
/// bytes on success, and on failure the error's text as status with code 0.
/// The reply always names the service's uid and echoes the request id when
/// the request carried one.
pub fn plan_reply(
    service_uid: &str,
    request_id: Option<&str>,
    outcome: Result<Vec<u8>, String>,
) -> (reply: ReplyPlan)
    ensures
        pairs_view(reply.headers@) == reply_headers_spec(
            service_uid@,
            match request_id {
                Some(r) => Some(r@),
                None => None,
            },
        ),
        match outcome {
            Ok(bytes) => match reply.body {
                Ok(b) => b@ == bytes@,
                Err(_) => false,
            },
            Err(message) => match reply.body {
                Err(f) => f.status@ == message@ && f.code == 0,
                Ok(_) => false,
            },
        },
{
    let mut headers: Vec<(String, String)> = Vec::new();
    headers.push((SERVICE_UID.to_string(), service_uid.to_string()));
    match request_id {
        Some(id) => {
            headers.push((REQUEST_ID.to_string(), id.to_string()));
        },
        None => {},
    }
    let body = match outcome {
        Ok(bytes) => Ok(bytes),
        Err(message) => Err(ServiceFailure { status: message, code: 0 }),
    };
    let reply = ReplyPlan { headers, body };
    assert(pairs_view(reply.headers@) =~= reply_headers_spec(
        service_uid@,
        match request_id {
            Some(r) => Some(r@),
            None => None,
        },
    ));
    reply
}

/// A reply echoes the request id a generated client sent: the server reads
/// the id from the request's headers, and the reply's headers carry the
/// service's uid and that same id.
pub proof fn law_reply_echoes_client_request_id(service_uid: Seq<char>, request_id: Seq<char>)
    ensures
        header_lookup(crate::client::request_headers_spec(request_id), REQUEST_ID@) == Some(
            request_id,
        ),
        reply_headers_spec(
            service_uid,
            header_lookup(crate::client::request_headers_spec(request_id), REQUEST_ID@),
        ) == seq![(SERVICE_UID@, service_uid), (REQUEST_ID@, request_id)],
{
}

} // verus!
