//! RST_STREAM frames.
use super::error_codes::{frame_error_of, FrameError, FrameErrorCode};
use super::Http2InnerFrame;
use crate::wire::{be_u32, be_value};
use vstd::prelude::*;

verus! {

#[derive(Debug)]
pub struct Http2FrameResetStream {
    pub error_code: FrameError,
}

/// The result of reading an RST_STREAM frame: four bytes that name a
/// defined error code.
pub open spec fn reset_stream_frame_result(
    payload: Seq<u8>,
    r: Result<Http2InnerFrame, &'static str>,
) -> bool {
    if payload.len() != 4 {
        r == Err::<Http2InnerFrame, &'static str>("Expected 4 bytes for reset stream frame")
    } else if be_value(payload) > 13 {
        r == Err::<Http2InnerFrame, &'static str>("Invalid error code")
    } else {
        r matches Ok(Http2InnerFrame::RstStream(f)) && frame_error_of(be_value(payload) as u32)
            == Some(f.error_code)
    }
}

pub fn read_reset_stream_frame(_flags: u8, msg_payload: &[u8]) -> (r: Result<Http2InnerFrame, &'static str>)
    ensures
        reset_stream_frame_result(msg_payload@, r),
{
    if msg_payload.len() != 4 {
        return Err("Expected 4 bytes for reset stream frame");
    }
    let error_code = be_u32(msg_payload);
    let error_code = match error_code.as_frame_err() {
        Ok(e) => e,
        Err(_) => return Err("Invalid error code"),
    };
    Ok(Http2InnerFrame::RstStream(Http2FrameResetStream { error_code }))
}

} // verus!
