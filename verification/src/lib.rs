//! Protocol codecs for HTTP/1.1, HTTP/2 and Kafka: parsers and encoders of
//! the wire formats, and the per-connection bookkeeping of the protocols.
use vstd::prelude::*;

pub mod h2c;
pub mod http1;
pub mod http2;
pub mod kafka;
pub mod wire;

verus! {

/// `Clone` of `std::time::Duration` (a `Copy` type): the clone equals the
/// original.
pub assume_specification[ <std::time::Duration as core::clone::Clone>::clone ](
    d: &std::time::Duration,
) -> (r: std::time::Duration)
    ensures
        r == *d,
;

} // verus!
