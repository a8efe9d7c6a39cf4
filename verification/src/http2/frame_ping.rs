//! PING frames.
use super::Http2InnerFrame;
use vstd::prelude::*;

verus! {

#[derive(Debug)]
pub struct Http2FramePing {
    pub flags: u8,
    pub opaque_data: [u8; 8],
}

/// The result of reading a PING frame: exactly eight opaque bytes.
pub open spec fn ping_frame_result(flags: u8, payload: Seq<u8>, r: Result<Http2InnerFrame, &'static str>) -> bool {
    if payload.len() != 8 {
        r == Err::<Http2InnerFrame, &'static str>("Expected 8 bytes for ping frame")
    } else {
        r matches Ok(Http2InnerFrame::Ping(p)) && p.flags == flags && p.opaque_data@ == payload
    }
}

pub fn read_ping_frame(flags: u8, msg_payload: &[u8]) -> (r: Result<Http2InnerFrame, &'static str>)
    ensures
        ping_frame_result(flags, msg_payload@, r),
{
    if msg_payload.len() != 8 {
        return Err("Expected 8 bytes for ping frame");
    }
    let opaque_data: [u8; 8] = [
        msg_payload[0],
        msg_payload[1],
        msg_payload[2],
        msg_payload[3],
        msg_payload[4],
        msg_payload[5],
        msg_payload[6],
        msg_payload[7],
    ];
    assert(opaque_data@ =~= msg_payload@);
    Ok(Http2InnerFrame::Ping(Http2FramePing { flags, opaque_data }))
}

} // verus!
