//! What generated clients decide: request ids, request headers, and how a
//! reply's status turns into an error.

use vstd::prelude::*;

use crate::header::REQUEST_ID;
use crate::service::pairs_view;
use vstd::utf8::{decode_utf8, valid_utf8};

verus! {

broadcast use vstd::string::group_string_axioms;

/// Client error, each variant holding the text of what went wrong.
#[derive(Debug)]
pub enum ClientError {
    /// The request body could not be serialized.
    Serialize(String),
    /// The request could not be made or got no reply.
    Request(String),
    /// The reply body could not be deserialized.
    Deserialize(String),
    /// The service answered with an error status.
    ServiceError(String),
}

/// The text a client error displays.
pub open spec fn client_error_text(e: ClientError) -> Seq<char> {
    match e {
        ClientError::Serialize(m) => "serialization error: "@ + m@,
        ClientError::Request(m) => "request error: "@ + m@,
        ClientError::Deserialize(m) => "deserialization error: "@ + m@,
        ClientError::ServiceError(m) => "service error: "@ + m@,
    }
}

impl ClientError {
    /// The text the error displays: what kind of failure, a colon, and the
    /// text it holds.
    pub fn to_string(&self) -> (s: String)
        ensures
            s@ == client_error_text(*self),
    {
        match self {
            ClientError::Serialize(m) => {
                let mut s = "serialization error: ".to_string();
                s.append(m.as_str());
                s
            },
            ClientError::Request(m) => {
                let mut s = "request error: ".to_string();
                s.append(m.as_str());
                s
            },
            ClientError::Deserialize(m) => {
                let mut s = "deserialization error: ".to_string();
                s.append(m.as_str());
                s
            },
            ClientError::ServiceError(m) => {
                let mut s = "service error: ".to_string();
                s.append(m.as_str());
                s
            },
        }
    }
}

/// A character of Crockford's base-32 alphabet in upper case:
/// `0123456789ABCDEFGHJKMNPQRSTVWXYZ`.
pub open spec fn is_crockford_char(c: char) -> bool {
    ('0' <= c <= '9') || ('A' <= c <= 'Z' && c != 'I' && c != 'L' && c != 'O' && c != 'U')
}

/// The shape of a request id: a ULID in text, 26 characters of Crockford's
/// base-32 alphabet.
pub open spec fn is_request_id(s: Seq<char>) -> bool {
    s.len() == 26 && forall|i: int| 0 <= i < s.len() ==> is_crockford_char(#[trigger] s[i])
}

/// `ulid::Ulid::new().to_string()`: a ULID made from the clock and a random
/// source, written in base 32. Which ULID comes out is left unsaid; the
/// crate's encoder writes 26 characters of its alphabet
/// `0123456789ABCDEFGHJKMNPQRSTVWXYZ`.
#[verifier::external_body]
pub(crate) fn fresh_ulid_text() -> (s: String)
    ensures
        is_request_id(s@),
{
    ulid::Ulid::new().to_string()
}

/// Generates a new unique request id.
pub fn generate_request_id() -> (id: String)
    ensures
        is_request_id(id@),
{
    fresh_ulid_text()
}

/// The headers of a client request: the request id under `REQUEST_ID`.
pub open spec fn request_headers_spec(request_id: Seq<char>) -> Seq<(Seq<char>, Seq<char>)> {
    seq![(REQUEST_ID@, request_id)]
}

/// The headers of a client request: the request id under `REQUEST_ID`.
pub fn request_headers(request_id: &str) -> (headers: Vec<(String, String)>)
    ensures
        pairs_view(headers@) == request_headers_spec(request_id@),
{
    let mut headers: Vec<(String, String)> = Vec::new();
    headers.push((REQUEST_ID.to_string(), request_id.to_string()));
    assert(pairs_view(headers@) =~= request_headers_spec(request_id@));
    headers
}

/// The error a client's stream method gives when the stream cannot be looked
/// up (no service has created it): a request error with the lookup's text.
pub fn stream_lookup_error(detail: String) -> (e: ClientError)
    ensures
        e == ClientError::Request(detail),
{
    ClientError::Request(detail)
}

/// What `String::from_utf8_lossy` makes of `bytes`: the text, with each
/// invalid sequence replaced by U+FFFD.
pub uninterp spec fn utf8_lossy(bytes: Seq<u8>) -> Seq<char>;

/// `String::from_utf8_lossy(bytes)`, owned. Valid UTF-8 comes back as the text
/// it encodes; where and how replacement characters stand in for invalid
/// sequences is left to the name.
#[verifier::external_body]
fn text_of_bytes(bytes: &[u8]) -> (s: String)
    ensures
        s@ == utf8_lossy(bytes@),
        valid_utf8(bytes@) ==> s@ == decode_utf8(bytes@),
{
    String::from_utf8_lossy(bytes).to_string()
}

/// The error a client returns for a reply, if any: a status other than 200
/// is a service error whose text is the reply's description, or its payload
/// read as text when there is no description. No status, or 200, is no error.
pub fn check_reply_status(status: Option<u16>, description: Option<String>, payload: &[u8]) -> (r:
    Result<(), ClientError>)
    ensures
        match status {
            Some(code) => if code != 200 {
                match r {
                    Err(ClientError::ServiceError(m)) => m@ == match description {
                        Some(d) => d@,
                        None => utf8_lossy(payload@),
                    },
                    _ => false,
                }
            } else {
                r is Ok
            },
            None => r is Ok,
        },
{
    match status {
        Some(code) => {
            if code != 200 {
                let text = match description {
                    Some(d) => d,
                    None => text_of_bytes(payload),
                };
                Err(ClientError::ServiceError(text))
            } else {
                Ok(())
            }
        },
        None => Ok(()),
    }
}

} // verus!
