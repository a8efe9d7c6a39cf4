//! CONTINUATION frames.
use super::Http2InnerFrame;
use vstd::prelude::*;
use vstd::slice::slice_to_vec;

verus! {

#[derive(Debug)]
pub struct Http2FrameContinuation {
    pub header_block_fragment: Vec<u8>,
}

/// The whole payload of a CONTINUATION frame is a header block fragment.
pub fn read_continuation_frame(msg_payload: &[u8]) -> (r: Result<Http2InnerFrame, &'static str>)
    ensures
        r matches Ok(Http2InnerFrame::Continuation(c)) && c.header_block_fragment@ == msg_payload@,
{
    let header_block_fragment = slice_to_vec(msg_payload);
    Ok(Http2InnerFrame::Continuation(Http2FrameContinuation { header_block_fragment }))
}

} // verus!
