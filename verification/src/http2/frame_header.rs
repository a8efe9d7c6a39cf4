//! HEADERS frames.
use super::flags::{has_bit, with_bit};
use super::Http2InnerFrame;
use crate::wire::{be_u32, be_value, take_exact};
use vstd::prelude::*;
use vstd::slice::slice_to_vec;

verus! {

#[derive(Debug)]
pub struct Http2FrameHeaders {
    pub flags: Http2FrameHeadersFlags,
    pub exclusive_and_stream_dependency: u32,
    pub weight: u8,
    pub header_block_fragment: Vec<u8>,
    pub padding: Vec<u8>,
}

#[derive(Debug)]
pub struct Http2FrameHeadersFlags {
    pub flags: u8,
}

impl Http2FrameHeadersFlags {
    pub fn from_u8(value: u8) -> (r: Self)
        ensures
            r.flags == value,
    {
        Http2FrameHeadersFlags { flags: value }
    }

    pub fn as_u8(&self) -> (r: u8)
        ensures
            r == self.flags,
    {
        self.flags
    }

    /// END_STREAM is bit `0x1`.
    pub fn get_end_stream(&self) -> (r: bool)
        ensures
            r == has_bit(self.flags, 0x1),
    {
        self.flags & 0x1 == 0x1
    }

    /// PADDED is bit `0x8`.
    pub fn get_padded(&self) -> (r: bool)
        ensures
            r == has_bit(self.flags, 0x8),
    {
        self.flags & 0x8 == 0x8
    }

    /// PRIORITY is bit `0x20`.
    pub fn get_priority(&self) -> (r: bool)
        ensures
            r == has_bit(self.flags, 0x20),
    {
        self.flags & 0x20 == 0x20
    }

    pub fn set_end_stream(&mut self, end_stream: bool)
        ensures
            final(self).flags == with_bit(old(self).flags, 0x1, end_stream),
    {
        if end_stream {
            self.flags = self.flags | 0x1;
        } else {
            self.flags = self.flags & !0x1u8;
        }
    }

    pub fn set_padded(&mut self, padded: bool)
        ensures
            final(self).flags == with_bit(old(self).flags, 0x8, padded),
    {
        if padded {
            self.flags = self.flags | 0x8;
        } else {
            self.flags = self.flags & !0x8u8;
        }
    }

    pub fn set_priority(&mut self, priority: bool)
        ensures
            final(self).flags == with_bit(old(self).flags, 0x20, priority),
    {
        if priority {
            self.flags = self.flags | 0x20;
        } else {
            self.flags = self.flags & !0x20u8;
        }
    }
}

/// A HEADERS payload can be read without a failing subtraction: it is
/// shorter than the six fixed bytes, or its pad length is at most the
/// number of bytes that follow them.
pub open spec fn header_frame_readable(payload: Seq<u8>) -> bool {
    payload.len() < 6 || payload[0] as int <= payload.len() - 6
}

/// `h` is what a HEADERS frame with `flags` and a payload of at least six
/// bytes holds: pad length, four bytes of stream dependency, a weight,
/// the fragment, and the padding at the end.
pub open spec fn header_frame_holds(h: Http2FrameHeaders, flags: u8, payload: Seq<u8>) -> bool {
    let pad = payload[0] as int;
    &&& h.flags.flags == flags
    &&& h.exclusive_and_stream_dependency as nat == be_value(payload.subrange(1, 5))
    &&& h.weight == payload[5]
    &&& h.header_block_fragment@ == payload.subrange(6, payload.len() - pad)
    &&& h.padding@ == payload.skip(payload.len() - pad)
}

/// The result of reading a HEADERS frame.
pub open spec fn header_frame_result(
    flags: u8,
    payload: Seq<u8>,
    r: Result<Http2InnerFrame, &'static str>,
) -> bool {
    if payload.len() == 0 {
        r == Err::<Http2InnerFrame, &'static str>("Expected 1 byte padding length")
    } else if payload.len() < 5 {
        r == Err::<Http2InnerFrame, &'static str>(
            "Expected 4 bytes for exclusive flag and stream dependency",
        )
    } else if payload.len() < 6 {
        r == Err::<Http2InnerFrame, &'static str>("Expected 1 byte for weight")
    } else {
        r matches Ok(Http2InnerFrame::Headers(h)) && header_frame_holds(h, flags, payload)
    }
}

/// Reads a HEADERS frame. The pad length and the priority fields are read
/// whatever the flags say.
pub fn read_header_frame(flags: u8, msg_payload: &[u8]) -> (r: Result<Http2InnerFrame, &'static str>)
    requires
        header_frame_readable(msg_payload@),
    ensures
        header_frame_result(flags, msg_payload@, r),
{
    let (pad_length, rest) = take_exact(msg_payload, 1, "Expected 1 byte padding length")?;
    let pad_length = pad_length[0] as usize;
    let (dependency, rest) = take_exact(
        rest,
        4,
        "Expected 4 bytes for exclusive flag and stream dependency",
    )?;
    let (weight, rest) = take_exact(rest, 1, "Expected 1 byte for weight")?;
    let weight = weight[0];
    let message_length = rest.len() - pad_length;
    let (header_block_fragment, padding) = take_exact(
        rest,
        message_length,
        "Expected header block fragment",
    )?;
    let exclusive_and_stream_dependency = be_u32(dependency);
    proof {
        let p = msg_payload@;
        assert(dependency@ =~= p.subrange(1, 5));
        assert(header_block_fragment@ =~= p.subrange(6, p.len() - pad_length));
        assert(padding@ =~= p.skip(p.len() - pad_length));
    }
    Ok(
        Http2InnerFrame::Headers(
            Http2FrameHeaders {
                flags: Http2FrameHeadersFlags::from_u8(flags),
                exclusive_and_stream_dependency,
                weight,
                header_block_fragment: slice_to_vec(header_block_fragment),
                padding: slice_to_vec(padding),
            },
        ),
    )
}

} // verus!
