//! Header keys used in the NATS metadata of services, requests and messages.

use vstd::prelude::*;

verus! {

/// Service library version header.
pub const VERSION: &'static str = "Nodal-Version";

/// Service unique identifier.
pub const SERVICE_UID: &'static str = "Nodal-Service-Uid";

/// Endpoint request id.
pub const REQUEST_ID: &'static str = "Nodal-Request-Id";

/// Endpoint request schema header.
pub const REQUEST_SCHEMA: &'static str = "Nodal-Request-Schema";

/// Endpoint response schema header.
pub const RESPONSE_SCHEMA: &'static str = "Nodal-Response-Schema";

/// Message id of a published stream message, the key of JetStream's
/// deduplication window.
pub const MESSAGE_ID: &'static str = "Nats-Msg-Id";

} // verus!
