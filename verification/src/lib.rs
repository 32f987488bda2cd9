//! Verified core of a NATS service framework: naming, subject templates and
//! the decisions that the runtime makes around requests and streams.

pub mod attrs;
pub mod client;
pub mod codegen;
pub mod error;
pub mod header;
pub mod naming;
pub mod nats;
pub mod service;
pub mod stream;
pub mod subject;
pub mod template;
pub mod supervisor;
pub mod text;
pub mod types;
