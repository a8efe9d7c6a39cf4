//! PUSH_PROMISE frames.
use super::flags::{has_bit, with_bit};
use super::Http2InnerFrame;
use crate::wire::{be_u32, be_value, take_exact};
use vstd::prelude::*;
use vstd::slice::slice_to_vec;

verus! {

#[derive(Debug)]
pub struct Http2FramePushPromise {
    pub flags: Http2FramePushPromiseFlags,
    pub reserved_and_promised_stream_id: u32,
    pub header_block_fragment: Vec<u8>,
    pub padding: Vec<u8>,
}

#[derive(Debug)]
pub struct Http2FramePushPromiseFlags {
    flags: u8,
}

impl Http2FramePushPromiseFlags {
    /// The flag byte.
    pub closed spec fn bits(&self) -> u8 {
        self.flags
    }

    pub fn from_u8(value: u8) -> (r: Self)
        ensures
            r.bits() == value,
    {
        Http2FramePushPromiseFlags { flags: value }
    }

    pub fn as_u8(&self) -> (r: u8)
        ensures
            r == self.bits(),
    {
        self.flags
    }

    /// END_HEADERS is bit `0x4`.
    pub fn get_end_headers(&self) -> (r: bool)
        ensures
            r == has_bit(self.bits(), 0x4),
    {
        self.flags & 0x4 == 0x4
    }

    /// PADDED is bit `0x8`.
    pub fn get_padded(&self) -> (r: bool)
        ensures
            r == has_bit(self.bits(), 0x8),
    {
        self.flags & 0x8 == 0x8
    }

    pub fn set_end_headers(&mut self, end_headers: bool)
        ensures
            final(self).bits() == with_bit(old(self).bits(), 0x4, end_headers),
    {
        if end_headers {
            self.flags = self.flags | 0x4;
        } else {
            self.flags = self.flags & !0x4u8;
        }
    }

    pub fn set_padded(&mut self, padded: bool)
        ensures
            final(self).bits() == with_bit(old(self).bits(), 0x8, padded),
    {
        if padded {
            self.flags = self.flags | 0x8;
        } else {
            self.flags = self.flags & !0x8u8;
        }
    }
}

/// A PUSH_PROMISE payload can be read without a failing subtraction: it
/// is shorter than the five fixed bytes, or its pad length is at most the
/// number of bytes that follow them.
pub open spec fn push_promise_frame_readable(payload: Seq<u8>) -> bool {
    payload.len() < 5 || payload[0] as int <= payload.len() - 5
}

/// `p` is what a PUSH_PROMISE payload of at least five bytes holds. The
/// flags of the frame are not kept: the result always has no flag set.
pub open spec fn push_promise_frame_holds(p: Http2FramePushPromise, payload: Seq<u8>) -> bool {
    let pad = payload[0] as int;
    &&& p.flags.bits() == 0
    &&& p.reserved_and_promised_stream_id as nat == be_value(payload.subrange(1, 5))
    &&& p.header_block_fragment@ == payload.subrange(5, payload.len() - pad)
    &&& p.padding@ == payload.skip(payload.len() - pad)
}

/// The result of reading a PUSH_PROMISE frame.
pub open spec fn push_promise_frame_result(
    payload: Seq<u8>,
    r: Result<Http2InnerFrame, &'static str>,
) -> bool {
    if payload.len() == 0 {
        r == Err::<Http2InnerFrame, &'static str>("Expected 1 byte padding length")
    } else if payload.len() < 5 {
        r == Err::<Http2InnerFrame, &'static str>("Expected 4 bytes reserved and promised stream id")
    } else {
        r matches Ok(Http2InnerFrame::PushPromise(p)) && push_promise_frame_holds(p, payload)
    }
}

pub fn read_push_promise_frame(_flags: u8, msg_payload: &[u8]) -> (r: Result<Http2InnerFrame, &'static str>)
    requires
        push_promise_frame_readable(msg_payload@),
    ensures
        push_promise_frame_result(msg_payload@, r),
{
    let (pad_length, rest) = take_exact(msg_payload, 1, "Expected 1 byte padding length")?;
    let pad_length = pad_length[0] as usize;
    let (promised, rest) = take_exact(rest, 4, "Expected 4 bytes reserved and promised stream id")?;
    let reserved_and_promised_stream_id = be_u32(promised);
    let message_length = rest.len() - pad_length;
    let (header_block_fragment, padding) = take_exact(
        rest,
        message_length,
        "Expected header block fragment",
    )?;
    proof {
        let p = msg_payload@;
        assert(promised@ =~= p.subrange(1, 5));
        assert(header_block_fragment@ =~= p.subrange(5, p.len() - pad_length));
        assert(padding@ =~= p.skip(p.len() - pad_length));
    }
    Ok(
        Http2InnerFrame::PushPromise(
            Http2FramePushPromise {
                flags: Http2FramePushPromiseFlags { flags: 0 },
                reserved_and_promised_stream_id,
                header_block_fragment: slice_to_vec(header_block_fragment),
                padding: slice_to_vec(padding),
            },
        ),
    )
}

} // verus!
