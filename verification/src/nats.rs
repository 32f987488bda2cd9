//! Types of the NATS client that the library's errors are made from.

use async_nats::error::Error as NatsError;
use async_nats::jetstream::context::PublishErrorKind;
use vstd::prelude::*;

verus! {

/// The error type of the NATS client, generic over the kind of error.
#[verifier::external_type_specification]
#[verifier::external_body]
#[verifier::reject_recursive_types(Kind)]
pub struct ExNatsError<Kind>(NatsError<Kind>) where
    Kind: Clone + std::fmt::Debug + std::fmt::Display + PartialEq;

/// The kinds of failure of a JetStream publish.
#[verifier::external_type_specification]
#[verifier::external_body]
pub struct ExPublishErrorKind(PublishErrorKind);

} // verus!
