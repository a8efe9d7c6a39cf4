//! Kafka wire protocol: size-prefixed frames, request and response headers,
//! the typed messages of `kafka-protocol`, and the bookkeeping that pairs
//! responses with the requests they answer.
use vstd::prelude::*;

pub mod api;
pub mod client;
pub mod frame;
pub mod header;
pub mod laws;
pub mod messages;
pub mod server;

verus! {

/// Why a Kafka connection ended.
#[derive(Debug)]
pub enum KafkaProtocolError<E> {
    /// The protocol met what it does not handle; the text says what.
    UnhandledImplementation(&'static str),
    /// The inner service failed.
    InternalServiceError(E),
    /// The inner service, or the other side, went away.
    InternalServiceClosed,
    /// Nothing arrived in time.
    Timeout,
}

/// What a response needs to know of the request it answers.
#[derive(Clone, Copy, Debug, PartialEq)]
pub struct ProtoInfo {
    pub correlation_id: i32,
    pub api_version: i16,
}

} // verus!
