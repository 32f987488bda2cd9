//! The error that service handlers return.

use async_nats::jetstream::context::PublishError;
use vstd::prelude::*;

verus! {

broadcast use vstd::string::group_string_axioms;

/// Error type for service endpoints.
#[derive(Debug)]
pub struct Error {
    message: String,
}

impl View for Error {
    type V = Seq<char>;

    /// The error's message.
    closed spec fn view(&self) -> Seq<char> {
        self.message@
    }
}

impl Error {
    /// An error with the given message.
    pub fn new(message: &str) -> (e: Error)
        ensures
            e@ == message@,
    {
        Error { message: message.to_string() }
    }

    /// The text the error displays: its message.
    pub fn to_string(&self) -> (s: String)
        ensures
            s@ == self@,
    {
        self.message.clone()
    }
}

/// The text a failed JetStream publish displays: its kind, followed by its
/// source when it has one.
pub uninterp spec fn publish_error_display(e: PublishError) -> Seq<char>;

/// `to_string` of `async_nats::jetstream::context::PublishError`. The text
/// depends on the error's kind and source alone; it is left to the name.
#[verifier::external_body]
fn publish_error_text(e: &PublishError) -> (s: String)
    ensures
        s@ == publish_error_display(*e),
{
    e.to_string()
}

impl From<PublishError> for Error {
    /// An error whose message is the text of the failed publish.
    fn from(value: PublishError) -> (e: Self)
        ensures
            e@ == publish_error_display(value),
    {
        Error { message: publish_error_text(&value) }
    }
}

impl vstd::std_specs::convert::FromSpecImpl<PublishError> for Error {
    /// The result is stated on `from` itself, by its message: an `Error`
    /// value cannot be written in a specification from a text alone.
    open spec fn obeys_from_spec() -> bool {
        false
    }

    open spec fn from_spec(v: PublishError) -> Error {
        arbitrary()
    }
}

} // verus!
