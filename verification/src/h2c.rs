//! The first cut of the HTTP/2 (h2c) frame readers: frames whose error
//! codes are kept as raw 32-bit numbers.
use crate::wire::{be_u32, be_value, take_exact};
use vstd::prelude::*;
use vstd::slice::slice_to_vec;

verus! {

#[derive(Clone, Debug)]
pub struct ProtoHttp2Config {
    pub max_header_size: usize,
    pub max_body_size: usize,
    pub timeout: std::time::Duration,
}

/// Why an h2c connection ended.
#[derive(Debug)]
pub enum ProtoHttp2Error<Error> {
    InvalidPreface,
    ServiceError(Error),
}

#[derive(Debug)]
pub enum Http2Frame {
    Continuation(Http2FrameContinuation),
    GoAway(Http2FrameGoaway),
    RstStream(Http2FrameResetStream),
    Unknown(Http2FrameUnknown),
}

#[derive(Debug)]
pub struct Http2FrameContinuation {
    pub header_block_fragment: Vec<u8>,
}

#[derive(Debug)]
pub struct Http2FrameGoaway {
    pub reserved_and_last_stream_id: u32,
    pub error_code: u32,
    pub additional_debug_data: Vec<u8>,
}

#[derive(Debug)]
pub struct Http2FrameResetStream {
    pub error_code: u32,
}

#[derive(Debug)]
pub struct Http2FrameUnknown {
    pub frame_type: u8,
    pub flags: u8,
    pub payload: Vec<u8>,
}

/// The whole payload of a CONTINUATION frame is a header block fragment.
pub fn read_continuation_frame(msg_payload: &[u8]) -> (r: Result<Http2Frame, &'static str>)
    ensures
        r matches Ok(Http2Frame::Continuation(c)) && c.header_block_fragment@ == msg_payload@,
{
    let header_block_fragment = slice_to_vec(msg_payload);
    Ok(Http2Frame::Continuation(Http2FrameContinuation { header_block_fragment }))
}

/// Reads a GOAWAY frame: last stream id, error code (any value) and debug
/// data.
pub fn read_goaway_frame(_flags: u8, msg_payload: &[u8]) -> (r: Result<Http2Frame, &'static str>)
    ensures
        msg_payload@.len() < 8 ==> r == Err::<Http2Frame, &'static str>(
            "Expected at least 8 bytes for goaway frame",
        ),
        msg_payload@.len() >= 8 ==> (r matches Ok(Http2Frame::GoAway(g))
            && g.reserved_and_last_stream_id as nat == be_value(msg_payload@.take(4))
            && g.error_code as nat == be_value(msg_payload@.subrange(4, 8))
            && g.additional_debug_data@ == msg_payload@.skip(8)),
{
    if msg_payload.len() < 8 {
        return Err("Expected at least 8 bytes for goaway frame");
    }
    let (last_stream_id, rest) = take_exact(msg_payload, 4, "Expected 4 bytes for last stream id")?;
    let reserved_and_last_stream_id = be_u32(last_stream_id);
    let (error_code, rest) = take_exact(rest, 4, "Expected 4 bytes for error code")?;
    let error_code = be_u32(error_code);
    proof {
        assert(msg_payload@.skip(4).take(4) =~= msg_payload@.subrange(4, 8));
        assert(msg_payload@.skip(4).skip(4) =~= msg_payload@.skip(8));
    }
    Ok(
        Http2Frame::GoAway(
            Http2FrameGoaway {
                reserved_and_last_stream_id,
                error_code,
                additional_debug_data: slice_to_vec(rest),
            },
        ),
    )
}

/// Reads an RST_STREAM frame: exactly four bytes of error code.
pub fn read_reset_stream_frame(_flags: u8, msg_payload: &[u8]) -> (r: Result<Http2Frame, &'static str>)
    ensures
        msg_payload@.len() != 4 ==> r == Err::<Http2Frame, &'static str>(
            "Expected 4 bytes for reset stream frame",
        ),
        msg_payload@.len() == 4 ==> (r matches Ok(Http2Frame::RstStream(f)) && f.error_code as nat
            == be_value(msg_payload@)),
{
    if msg_payload.len() != 4 {
        return Err("Expected 4 bytes for reset stream frame");
    }
    let error_code = be_u32(msg_payload);
    Ok(Http2Frame::RstStream(Http2FrameResetStream { error_code }))
}

/// Keeps the type, the flags and the payload as they came.
pub fn read_unknown_frame(frame_type: u8, flags: u8, msg_payload: &[u8]) -> (r: Result<
    Http2Frame,
    &'static str,
>)
    ensures
        r matches Ok(Http2Frame::Unknown(u)) && u.frame_type == frame_type && u.flags == flags
            && u.payload@ == msg_payload@,
{
    Ok(Http2Frame::Unknown(Http2FrameUnknown { frame_type, flags, payload: slice_to_vec(msg_payload) }))
}

} // verus!
