//! PRIORITY frames.
use super::Http2InnerFrame;
use crate::wire::{be_u32, be_value, take_exact};
use vstd::prelude::*;

verus! {

#[derive(Debug)]
pub struct Http2FramePriority {
    pub exclusive_and_stream_dependency: u32,
    pub weight: u8,
}

/// The result of reading a PRIORITY frame: exactly five payload bytes and
/// no flags.
pub open spec fn priority_frame_result(
    flags: u8,
    payload: Seq<u8>,
    r: Result<Http2InnerFrame, &'static str>,
) -> bool {
    if payload.len() != 5 {
        r == Err::<Http2InnerFrame, &'static str>("Expected 5 bytes for priority frame")
    } else if flags != 0 {
        r == Err::<Http2InnerFrame, &'static str>("Priority frame must have flags set to 0")
    } else {
        r matches Ok(Http2InnerFrame::Priority(p)) && p.exclusive_and_stream_dependency as nat
            == be_value(payload.take(4)) && p.weight == payload[4]
    }
}

pub fn read_priority_frame(flags: u8, msg_payload: &[u8]) -> (r: Result<Http2InnerFrame, &'static str>)
    ensures
        priority_frame_result(flags, msg_payload@, r),
{
    if msg_payload.len() != 5 {
        return Err("Expected 5 bytes for priority frame");
    }
    if flags != 0 {
        return Err("Priority frame must have flags set to 0");
    }
    let (dependency, rest) = take_exact(
        msg_payload,
        4,
        "Expected 4 bytes exclusive and stream dependency",
    )?;
    let exclusive_and_stream_dependency = be_u32(dependency);
    let (weight, _) = take_exact(rest, 1, "Expected 1 byte weight")?;
    Ok(Http2InnerFrame::Priority(Http2FramePriority { exclusive_and_stream_dependency, weight: weight[0] }))
}

} // verus!
