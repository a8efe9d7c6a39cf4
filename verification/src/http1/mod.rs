//! HTTP/1.1: requests and responses, their parsers and their encoders.
use vstd::prelude::*;

pub mod encode;
pub mod headers;
pub mod laws;
pub mod layer;
pub mod request_parser;
pub mod response_parser;
pub mod server_parser;
pub mod text;

pub use headers::{HeaderEntry, HeaderList};

verus! {

/// The request methods that the parsers recognise.
#[allow(non_camel_case_types, clippy::upper_case_acronyms)]
#[derive(Debug, Clone, Copy, PartialEq, Eq, Structural)]
pub enum Method {
    GET,
    POST,
    PUT,
    DELETE,
    PATCH,
    OPTIONS,
    HEAD,
    TRACE,
    CONNECT,
}

#[derive(Clone, Debug)]
pub struct ProtoHttp1Config {
    pub max_header_size: usize,
    pub max_body_size: usize,
    pub timeout: std::time::Duration,
}

/// An HTTP/1.1 request. `path` is the request target as it came (path and
/// query), validated as a URI.
#[derive(Debug)]
pub struct HTTP1Request {
    pub path: String,
    pub method: Method,
    pub headers: HeaderList,
    pub body: Vec<u8>,
}

/// An HTTP/1.1 response. `status` is a status code in `100..=999`.
#[derive(Debug)]
pub struct HTTTP1Response {
    pub status: u16,
    pub headers: HeaderList,
    pub body: Vec<u8>,
}

/// The response type under the name that the client side uses.
pub type HTTP1Response = HTTTP1Response;

/// This is what the downstream service will receive.
pub enum HTTP1Event<READER, WRITER> {
    Request(HTTP1Request),
    /// A protocol upgrade including the original request and subsequent response.
    ProtocolUpgrade(HTTP1Request, HTTTP1Response, (READER, WRITER)),
}

pub enum HTTTP1ResponseEvent {
    /// Use this for protocol upgrades.
    NoResponseExpected,
    /// Use this for request responses.
    Response(HTTTP1Response),
}

/// A problem found in a request that was still parsed (a partial error).
/// The parsers report none yet; a single kind stands for all.
#[derive(Debug)]
pub enum Http1ParseError {
    Unspecified,
}

#[derive(Debug)]
pub enum ProtoHttp1LayerError<SvcError> {
    /// An error in the implementation of this layer.
    Implementation(String),
    /// The internal service returned a wrong response.
    InternalServiceWrongResponse,
    /// An error in the internal service.
    InternalServiceError(SvcError),
}

} // verus!
