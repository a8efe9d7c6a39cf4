//! WINDOW_UPDATE frames.
use super::Http2InnerFrame;
use crate::wire::{be_u32, be_value};
use vstd::prelude::*;

verus! {

#[derive(Debug)]
pub struct Http2FrameWindowUpdate {
    pub reserved_and_window_size_increment: u32,
}

/// The result of reading a WINDOW_UPDATE frame: exactly four bytes.
pub open spec fn window_update_frame_result(
    payload: Seq<u8>,
    r: Result<Http2InnerFrame, &'static str>,
) -> bool {
    if payload.len() != 4 {
        r == Err::<Http2InnerFrame, &'static str>("Expected 4 bytes for window update frame")
    } else {
        r matches Ok(Http2InnerFrame::WindowUpdate(w)) && w.reserved_and_window_size_increment as nat
            == be_value(payload)
    }
}

pub fn read_window_update_frame(_flags: u8, msg_payload: &[u8]) -> (r: Result<Http2InnerFrame, &'static str>)
    ensures
        window_update_frame_result(msg_payload@, r),
{
    if msg_payload.len() != 4 {
        return Err("Expected 4 bytes for window update frame");
    }
    let reserved_and_window_size_increment = be_u32(msg_payload);
    Ok(Http2InnerFrame::WindowUpdate(Http2FrameWindowUpdate { reserved_and_window_size_increment }))
}

} // verus!
