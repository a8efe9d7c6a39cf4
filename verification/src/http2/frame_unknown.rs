//! Frames of a type that this crate does not know.
use super::Http2InnerFrame;
use vstd::prelude::*;
use vstd::slice::slice_to_vec;

verus! {

#[derive(Debug)]
pub struct Http2FrameUnknown {
    pub frame_type: u8,
    pub flags: u8,
    pub payload: Vec<u8>,
}

/// Keeps the type, the flags and the payload as they came.
pub fn read_unknown_frame(frame_type: u8, flags: u8, msg_payload: &[u8]) -> (r: Result<
    Http2InnerFrame,
    &'static str,
>)
    ensures
        r matches Ok(Http2InnerFrame::Unknown(u)) && u.frame_type == frame_type && u.flags == flags
            && u.payload@ == msg_payload@,
{
    Ok(Http2InnerFrame::Unknown(Http2FrameUnknown { frame_type, flags, payload: slice_to_vec(msg_payload) }))
}

} // verus!
