//! DATA frames.
use super::flags::{has_bit, with_bit};
use super::Http2InnerFrame;
use crate::wire::take_exact;
use vstd::prelude::*;
use vstd::slice::slice_to_vec;

verus! {

#[derive(Debug)]
pub struct Http2FrameData {
    pub flags: Http2FrameDataFlags,
    pub payload: Vec<u8>,
    pub padding: Vec<u8>,
}

#[derive(Debug)]
pub struct Http2FrameDataFlags {
    pub flags: u8,
}

impl Http2FrameDataFlags {
    pub fn from_u8(value: u8) -> (r: Self)
        ensures
            r.flags == value,
    {
        Http2FrameDataFlags { flags: value }
    }

    pub fn as_u8(&self) -> (r: u8)
        ensures
            r == self.flags,
    {
        self.flags
    }

    /// END_STREAM is bit `0x1`.
    pub fn flags_get_end_stream(&self) -> (r: bool)
        ensures
            r == has_bit(self.flags, 0x1),
    {
        self.flags & 0x1 == 0x1
    }

    /// PADDED is bit `0x8`.
    pub fn flags_get_padded(&self) -> (r: bool)
        ensures
            r == has_bit(self.flags, 0x8),
    {
        self.flags & 0x8 == 0x8
    }

    pub fn flags_set_end_stream(&mut self, end_stream: bool)
        ensures
            final(self).flags == with_bit(old(self).flags, 0x1, end_stream),
    {
        if end_stream {
            self.flags = self.flags | 0x1;
        } else {
            self.flags = self.flags & !0x1u8;
        }
    }

    pub fn flags_set_padded(&mut self, padded: bool)
        ensures
            final(self).flags == with_bit(old(self).flags, 0x8, padded),
    {
        if padded {
            self.flags = self.flags | 0x8;
        } else {
            self.flags = self.flags & !0x8u8;
        }
    }
}

/// A DATA payload can be read without a failing subtraction: it is empty,
/// or its pad length is at most the number of bytes that follow it.
pub open spec fn data_frame_readable(payload: Seq<u8>) -> bool {
    payload.len() == 0 || payload[0] as int <= payload.len() - 1
}

/// `d` is what a DATA frame with `flags` and a non-empty `payload` holds:
/// the first byte is the pad length, the last that many bytes are padding,
/// and the bytes between are the data.
pub open spec fn data_frame_holds(d: Http2FrameData, flags: u8, payload: Seq<u8>) -> bool {
    let pad = payload[0] as int;
    &&& d.flags.flags == flags
    &&& d.payload@ == payload.subrange(1, payload.len() - pad)
    &&& d.padding@ == payload.skip(payload.len() - pad)
}

/// The result of reading a DATA frame.
pub open spec fn data_frame_result(
    flags: u8,
    payload: Seq<u8>,
    r: Result<Http2InnerFrame, &'static str>,
) -> bool {
    if payload.len() == 0 {
        r == Err::<Http2InnerFrame, &'static str>("Expected 1 byte padding length")
    } else {
        r matches Ok(Http2InnerFrame::Data(d)) && data_frame_holds(d, flags, payload)
    }
}

/// Reads a DATA frame. The pad length byte is read whatever the flags say.
pub fn read_data_frame(flags: u8, msg_payload: &[u8]) -> (r: Result<Http2InnerFrame, &'static str>)
    requires
        data_frame_readable(msg_payload@),
    ensures
        data_frame_result(flags, msg_payload@, r),
{
    let (pad_length, msg_payload2) = take_exact(msg_payload, 1, "Expected 1 byte padding length")?;
    let pad_length = pad_length[0] as usize;
    let message_length = msg_payload2.len() - pad_length;
    let (payload, padding) = take_exact(msg_payload2, message_length, "Expected payload")?;
    proof {
        assert(payload@ =~= msg_payload@.subrange(1, msg_payload@.len() - pad_length));
        assert(padding@ =~= msg_payload@.skip(msg_payload@.len() - pad_length));
    }
    Ok(
        Http2InnerFrame::Data(
            Http2FrameData {
                flags: Http2FrameDataFlags::from_u8(flags),
                payload: slice_to_vec(payload),
                padding: slice_to_vec(padding),
            },
        ),
    )
}

} // verus!
