//! GOAWAY frames.
use super::error_codes::{frame_error_of, FrameError, FrameErrorCode};
use super::Http2InnerFrame;
use crate::wire::{be_u32, be_value, take_exact};
use vstd::prelude::*;
use vstd::slice::slice_to_vec;

verus! {

#[derive(Debug)]
pub struct Http2FrameGoaway {
    pub reserved_and_last_stream_id: u32,
    pub error_code: FrameError,
    pub additional_debug_data: Vec<u8>,
}

/// The result of reading a GOAWAY frame: a last stream id, a defined
/// error code, and debug data.
pub open spec fn goaway_frame_result(payload: Seq<u8>, r: Result<Http2InnerFrame, &'static str>) -> bool {
    if payload.len() < 8 {
        r == Err::<Http2InnerFrame, &'static str>("Expected at least 8 bytes for goaway frame")
    } else if be_value(payload.subrange(4, 8)) > 13 {
        r == Err::<Http2InnerFrame, &'static str>("Invalid error code")
    } else {
        r matches Ok(Http2InnerFrame::GoAway(g)) && g.reserved_and_last_stream_id as nat
            == be_value(payload.take(4)) && frame_error_of(be_value(payload.subrange(4, 8)) as u32)
            == Some(g.error_code) && g.additional_debug_data@ == payload.skip(8)
    }
}

pub fn read_goaway_frame(_flags: u8, msg_payload: &[u8]) -> (r: Result<Http2InnerFrame, &'static str>)
    ensures
        goaway_frame_result(msg_payload@, r),
{
    if msg_payload.len() < 8 {
        return Err("Expected at least 8 bytes for goaway frame");
    }
    let (last_stream_id, rest) = take_exact(msg_payload, 4, "Expected 4 bytes for last stream id")?;
    let reserved_and_last_stream_id = be_u32(last_stream_id);
    let (error_code, rest) = take_exact(rest, 4, "Expected 4 bytes for error code")?;
    let error_code = be_u32(error_code);
    proof {
        assert(msg_payload@.skip(4).take(4) =~= msg_payload@.subrange(4, 8));
        assert(msg_payload@.skip(4).skip(4) =~= msg_payload@.skip(8));
    }
    let error_code = match error_code.as_frame_err() {
        Ok(e) => e,
        Err(_) => return Err("Invalid error code"),
    };
    Ok(
        Http2InnerFrame::GoAway(
            Http2FrameGoaway {
                reserved_and_last_stream_id,
                error_code,
                additional_debug_data: slice_to_vec(rest),
            },
        ),
    )
}

} // verus!
