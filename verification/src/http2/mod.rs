//! HTTP/2 frames: the nine-byte frame header, the payload of each frame
//! type, and the encoding of frames for sending.
use vstd::prelude::*;

pub mod error_codes;
pub mod flags;
pub mod frame_continuation;
pub mod frame_data;
pub mod frame_goaway;
pub mod frame_header;
pub mod frame_ping;
pub mod frame_priority;
pub mod frame_push_promise;
pub mod frame_reset_stream;
pub mod frame_settings;
pub mod frame_unknown;
pub mod frame_window_update;
pub mod laws;

use crate::wire::{be_u32, be_value};
use frame_continuation::{read_continuation_frame, Http2FrameContinuation};
use frame_data::{data_frame_readable, data_frame_result, read_data_frame, Http2FrameData};
use frame_goaway::{goaway_frame_result, read_goaway_frame, Http2FrameGoaway};
use frame_header::{header_frame_readable, header_frame_result, read_header_frame, Http2FrameHeaders};
use frame_ping::{ping_frame_result, read_ping_frame, Http2FramePing};
use frame_priority::{priority_frame_result, read_priority_frame, Http2FramePriority};
use frame_push_promise::{
    push_promise_frame_readable, push_promise_frame_result, read_push_promise_frame,
    Http2FramePushPromise,
};
use frame_reset_stream::{read_reset_stream_frame, reset_stream_frame_result, Http2FrameResetStream};
use frame_settings::{read_settings_frame, settings_frame_result, Http2FrameSettings};
use frame_unknown::{read_unknown_frame, Http2FrameUnknown};
use frame_window_update::{
    read_window_update_frame, window_update_frame_result, Http2FrameWindowUpdate,
};

verus! {

/// The largest frame payload that is accepted.
pub const MAX_FRAME_SIZE: usize = 16384;

/// Why an HTTP/2 connection ended.
#[derive(Debug)]
pub enum ProtoHttp2Error<Error> {
    /// The connection did not open with the HTTP/2 preface.
    InvalidPreface,
    /// Nothing arrived in time.
    Timeout,
    /// The inner service went away.
    InnerServiceClosed,
    /// The inner service failed.
    ServiceError(Error),
    /// A frame could not be read; the text says why.
    OtherInternalError(&'static str),
}

#[derive(Debug)]
pub struct Http2Frame {
    pub stream_id: u32,
    pub inner_frame: Http2InnerFrame,
}

#[derive(Debug)]
pub enum Http2InnerFrame {
    Data(Http2FrameData),
    Headers(Http2FrameHeaders),
    Priority(Http2FramePriority),
    RstStream(Http2FrameResetStream),
    Settings(Http2FrameSettings),
    PushPromise(Http2FramePushPromise),
    Ping(Http2FramePing),
    GoAway(Http2FrameGoaway),
    WindowUpdate(Http2FrameWindowUpdate),
    Continuation(Http2FrameContinuation),
    Unknown(Http2FrameUnknown),
}

/// The payload length of a frame, as its fields count it.
pub open spec fn inner_frame_len(f: Http2InnerFrame) -> nat {
    match f {
        Http2InnerFrame::Data(d) => d.payload@.len() + d.padding@.len() + 1,
        Http2InnerFrame::Headers(h) => h.header_block_fragment@.len() + h.padding@.len() + 6,
        Http2InnerFrame::Priority(_) => 5,
        Http2InnerFrame::RstStream(_) => 4,
        Http2InnerFrame::Settings(s) => 6 * s.settings@.len(),
        Http2InnerFrame::PushPromise(p) => 5 + p.header_block_fragment@.len() + p.padding@.len(),
        Http2InnerFrame::Ping(_) => 8,
        Http2InnerFrame::GoAway(g) => 8 + g.additional_debug_data@.len(),
        Http2InnerFrame::WindowUpdate(_) => 4,
        Http2InnerFrame::Continuation(c) => c.header_block_fragment@.len(),
        Http2InnerFrame::Unknown(u) => u.payload@.len(),
    }
}

impl Http2InnerFrame {
    pub fn len(&self) -> (r: usize)
        requires
            inner_frame_len(*self) <= usize::MAX,
        ensures
            r == inner_frame_len(*self),
    {
        match self {
            Http2InnerFrame::Data(frame) => frame.payload.len() + frame.padding.len() + 1,
            Http2InnerFrame::Headers(frame) => frame.header_block_fragment.len() + frame.padding.len()
                + 6,
            Http2InnerFrame::Priority(_) => 5,
            Http2InnerFrame::RstStream(_) => 4,
            Http2InnerFrame::Settings(frame) => 6 * frame.settings.len(),
            Http2InnerFrame::PushPromise(frame) => 5 + frame.header_block_fragment.len()
                + frame.padding.len(),
            Http2InnerFrame::Ping(_) => 8,
            Http2InnerFrame::GoAway(frame) => 8 + frame.additional_debug_data.len(),
            Http2InnerFrame::WindowUpdate(_) => 4,
            Http2InnerFrame::Continuation(frame) => frame.header_block_fragment.len(),
            Http2InnerFrame::Unknown(frame) => frame.payload.len(),
        }
    }
}

/// Writing a frame out as bytes.
pub trait WriteOnto {
    /// The value can be written: encodings exist for it.
    spec fn writable(&self) -> bool;

    /// The bytes that writing the value appends.
    spec fn wire(&self) -> Seq<u8>;

    fn write_onto(&self, writer: &mut Vec<u8>) -> (r: Result<(), ()>)
        requires
            self.writable(),
        ensures
            r is Ok,
            final(writer)@ == old(writer)@ + self.wire(),
    ;
}

impl WriteOnto for Http2FrameContinuation {
    open spec fn writable(&self) -> bool {
        true
    }

    open spec fn wire(&self) -> Seq<u8> {
        self.header_block_fragment@
    }

    /// The fragment, as it is.
    fn write_onto(&self, writer: &mut Vec<u8>) -> (r: Result<(), ()>) {
        let mut i: usize = 0;
        while i < self.header_block_fragment.len()
            invariant
                i <= self.header_block_fragment@.len(),
                writer@ == old(writer)@ + self.header_block_fragment@.take(i as int),
            decreases self.header_block_fragment@.len() - i,
        {
            writer.push(self.header_block_fragment[i]);
            i = i + 1;
            assert(self.header_block_fragment@.take(i as int) =~= self.header_block_fragment@.take(
                i - 1,
            ).push(self.header_block_fragment@[i - 1]));
        }
        assert(self.header_block_fragment@.take(i as int) =~= self.header_block_fragment@);
        Ok(())
    }
}

impl WriteOnto for Http2InnerFrame {
    /// Only CONTINUATION frames have an encoding; for the other frame
    /// types no encoding exists yet.
    open spec fn writable(&self) -> bool {
        self is Continuation
    }

    open spec fn wire(&self) -> Seq<u8> {
        match self {
            Http2InnerFrame::Continuation(c) => c.wire(),
            _ => Seq::empty(),
        }
    }

    fn write_onto(&self, writer: &mut Vec<u8>) -> (r: Result<(), ()>) {
        match self {
            Http2InnerFrame::Continuation(frame) => frame.write_onto(writer),
            _ => Ok(()),
        }
    }
}

/// The four big-endian bytes of `x`.
pub open spec fn be_bytes_u32(x: u32) -> Seq<u8> {
    seq![(x >> 24u32) as u8, (x >> 16u32) as u8, (x >> 8u32) as u8, x as u8]
}

/// The frame type and the flag byte that a frame is sent with. A frame of
/// unknown type is sent with no flags.
pub open spec fn type_and_flags(f: Http2InnerFrame) -> (Http2FrameType, u8) {
    match f {
        Http2InnerFrame::Data(d) => (Http2FrameType::Data, d.flags.flags),
        Http2InnerFrame::Headers(h) => (Http2FrameType::Headers, h.flags.flags),
        Http2InnerFrame::Priority(_) => (Http2FrameType::Priority, 0),
        Http2InnerFrame::RstStream(_) => (Http2FrameType::RstStream, 0),
        Http2InnerFrame::Settings(s) => (Http2FrameType::Settings, s.flags.flags),
        Http2InnerFrame::PushPromise(p) => (Http2FrameType::PushPromise, p.flags.bits()),
        Http2InnerFrame::Ping(p) => (Http2FrameType::Ping, p.flags),
        Http2InnerFrame::GoAway(_) => (Http2FrameType::GoAway, 0),
        Http2InnerFrame::WindowUpdate(_) => (Http2FrameType::WindowUpdate, 0),
        Http2InnerFrame::Continuation(_) => (Http2FrameType::Continuation, 0),
        Http2InnerFrame::Unknown(u) => (Http2FrameType::Unknown(u.frame_type), 0),
    }
}

impl WriteOnto for Http2Frame {
    /// The payload length fits a `usize` and the payload has an encoding.
    open spec fn writable(&self) -> bool {
        inner_frame_len(self.inner_frame) <= usize::MAX && self.inner_frame.writable()
    }

    /// The payload length as four big-endian bytes (cut to 32 bits), the
    /// type byte, the flag byte, then the payload. The stream id is not
    /// written.
    open spec fn wire(&self) -> Seq<u8> {
        let (t, f) = type_and_flags(self.inner_frame);
        be_bytes_u32(inner_frame_len(self.inner_frame) as u32) + seq![frame_type_code(t), f]
            + self.inner_frame.wire()
    }

    fn write_onto(&self, writer: &mut Vec<u8>) -> (r: Result<(), ()>) {
        let length = self.inner_frame.len() as u32;
        writer.push((length >> 24u32) as u8);
        writer.push((length >> 16u32) as u8);
        writer.push((length >> 8u32) as u8);
        writer.push(length as u8);
        let (flags, frame_type) = match &self.inner_frame {
            Http2InnerFrame::Data(d) => (d.flags.as_u8(), Http2FrameType::Data),
            Http2InnerFrame::Headers(d) => (d.flags.as_u8(), Http2FrameType::Headers),
            Http2InnerFrame::Priority(_) => (0, Http2FrameType::Priority),
            Http2InnerFrame::RstStream(_) => (0, Http2FrameType::RstStream),
            Http2InnerFrame::Settings(d) => (d.flags.as_u8(), Http2FrameType::Settings),
            Http2InnerFrame::PushPromise(d) => (d.flags.as_u8(), Http2FrameType::PushPromise),
            Http2InnerFrame::Ping(d) => (d.flags, Http2FrameType::Ping),
            Http2InnerFrame::GoAway(_) => (0, Http2FrameType::GoAway),
            Http2InnerFrame::WindowUpdate(_) => (0, Http2FrameType::WindowUpdate),
            Http2InnerFrame::Continuation(_) => (0, Http2FrameType::Continuation),
            Http2InnerFrame::Unknown(d) => (0, Http2FrameType::Unknown(d.frame_type)),
        };
        writer.push(frame_type.into_u8());
        writer.push(flags);
        let ghost before = writer@;
        let r = self.inner_frame.write_onto(writer);
        proof {
            let (t, f) = type_and_flags(self.inner_frame);
            assert(before =~= old(writer)@ + be_bytes_u32(length) + seq![frame_type_code(t), f]);
        }
        r
    }
}

#[derive(Debug, Clone, Copy, PartialEq, Eq, Structural)]
pub enum Http2FrameType {
    Data,
    Headers,
    Priority,
    RstStream,
    Settings,
    PushPromise,
    Ping,
    GoAway,
    WindowUpdate,
    Continuation,
    Unknown(u8),
}

/// The frame type that a type byte names; bytes above 9 are unknown types.
pub open spec fn frame_type_of(value: u8) -> Http2FrameType {
    if value == 0 {
        Http2FrameType::Data
    } else if value == 1 {
        Http2FrameType::Headers
    } else if value == 2 {
        Http2FrameType::Priority
    } else if value == 3 {
        Http2FrameType::RstStream
    } else if value == 4 {
        Http2FrameType::Settings
    } else if value == 5 {
        Http2FrameType::PushPromise
    } else if value == 6 {
        Http2FrameType::Ping
    } else if value == 7 {
        Http2FrameType::GoAway
    } else if value == 8 {
        Http2FrameType::WindowUpdate
    } else if value == 9 {
        Http2FrameType::Continuation
    } else {
        Http2FrameType::Unknown(value)
    }
}

/// The type byte of a frame type.
pub open spec fn frame_type_code(t: Http2FrameType) -> u8 {
    match t {
        Http2FrameType::Data => 0,
        Http2FrameType::Headers => 1,
        Http2FrameType::Priority => 2,
        Http2FrameType::RstStream => 3,
        Http2FrameType::Settings => 4,
        Http2FrameType::PushPromise => 5,
        Http2FrameType::Ping => 6,
        Http2FrameType::GoAway => 7,
        Http2FrameType::WindowUpdate => 8,
        Http2FrameType::Continuation => 9,
        Http2FrameType::Unknown(v) => v,
    }
}

impl Http2FrameType {
    pub fn from_u8(value: u8) -> (r: Self)
        ensures
            r == frame_type_of(value),
    {
        match value {
            0 => Http2FrameType::Data,
            1 => Http2FrameType::Headers,
            2 => Http2FrameType::Priority,
            3 => Http2FrameType::RstStream,
            4 => Http2FrameType::Settings,
            5 => Http2FrameType::PushPromise,
            6 => Http2FrameType::Ping,
            7 => Http2FrameType::GoAway,
            8 => Http2FrameType::WindowUpdate,
            9 => Http2FrameType::Continuation,
            _ => Http2FrameType::Unknown(value),
        }
    }

    pub fn into_u8(&self) -> (r: u8)
        ensures
            r == frame_type_code(*self),
    {
        match self {
            Http2FrameType::Data => 0,
            Http2FrameType::Headers => 1,
            Http2FrameType::Priority => 2,
            Http2FrameType::RstStream => 3,
            Http2FrameType::Settings => 4,
            Http2FrameType::PushPromise => 5,
            Http2FrameType::Ping => 6,
            Http2FrameType::GoAway => 7,
            Http2FrameType::WindowUpdate => 8,
            Http2FrameType::Continuation => 9,
            Http2FrameType::Unknown(value) => *value,
        }
    }
}

/// A payload of frame type `t` can be read without a failing subtraction.
pub open spec fn frame_readable(t: Http2FrameType, payload: Seq<u8>) -> bool {
    match t {
        Http2FrameType::Data => data_frame_readable(payload),
        Http2FrameType::Headers => header_frame_readable(payload),
        Http2FrameType::PushPromise => push_promise_frame_readable(payload),
        _ => true,
    }
}

/// Whether a payload of type `t` can be read: its pad length, where it has
/// one, leaves room for the fields before the padding.
pub fn frame_is_readable(t: Http2FrameType, payload: &[u8]) -> (r: bool)
    ensures
        r == frame_readable(t, payload@),
{
    match t {
        Http2FrameType::Data => payload.len() == 0 || payload[0] as usize <= payload.len() - 1,
        Http2FrameType::Headers => payload.len() < 6 || payload[0] as usize <= payload.len() - 6,
        Http2FrameType::PushPromise => payload.len() < 5 || payload[0] as usize <= payload.len() - 5,
        _ => true,
    }
}

/// `r` is the result of reading a payload as a frame of type `t`.
pub open spec fn frame_result(
    t: Http2FrameType,
    flags: u8,
    payload: Seq<u8>,
    r: Result<Http2InnerFrame, &'static str>,
) -> bool {
    match t {
        Http2FrameType::Data => data_frame_result(flags, payload, r),
        Http2FrameType::Headers => header_frame_result(flags, payload, r),
        Http2FrameType::Priority => priority_frame_result(flags, payload, r),
        Http2FrameType::RstStream => reset_stream_frame_result(payload, r),
        Http2FrameType::Settings => settings_frame_result(flags, payload, r),
        Http2FrameType::PushPromise => push_promise_frame_result(payload, r),
        Http2FrameType::Ping => ping_frame_result(flags, payload, r),
        Http2FrameType::GoAway => goaway_frame_result(payload, r),
        Http2FrameType::WindowUpdate => window_update_frame_result(payload, r),
        Http2FrameType::Continuation => r matches Ok(Http2InnerFrame::Continuation(c))
            && c.header_block_fragment@ == payload,
        Http2FrameType::Unknown(v) => r matches Ok(Http2InnerFrame::Unknown(u)) && u.frame_type
            == v && u.flags == flags && u.payload@ == payload,
    }
}

/// Reading the payload of a frame whose type is known.
pub trait Http2TypeToFrame {
    /// The payload can be read without a failing subtraction.
    spec fn can_read(&self, payload: Seq<u8>) -> bool;

    /// `r` is what reading the payload gives.
    spec fn reads_as(&self, flags: u8, payload: Seq<u8>, r: Result<Http2InnerFrame, &'static str>) -> bool;

    fn to_frame(&self, flags: u8, payload: &[u8]) -> (r: Result<Http2InnerFrame, &'static str>)
        requires
            self.can_read(payload@),
        ensures
            self.reads_as(flags, payload@, r),
    ;
}

impl Http2TypeToFrame for Http2FrameType {
    open spec fn can_read(&self, payload: Seq<u8>) -> bool {
        frame_readable(*self, payload)
    }

    open spec fn reads_as(&self, flags: u8, payload: Seq<u8>, r: Result<Http2InnerFrame, &'static str>) -> bool {
        frame_result(*self, flags, payload, r)
    }

    fn to_frame(&self, flags: u8, payload: &[u8]) -> (r: Result<Http2InnerFrame, &'static str>) {
        match self {
            Http2FrameType::Data => read_data_frame(flags, payload),
            Http2FrameType::Headers => read_header_frame(flags, payload),
            Http2FrameType::Priority => read_priority_frame(flags, payload),
            Http2FrameType::RstStream => read_reset_stream_frame(flags, payload),
            Http2FrameType::Settings => read_settings_frame(flags, payload),
            Http2FrameType::PushPromise => read_push_promise_frame(flags, payload),
            Http2FrameType::Ping => read_ping_frame(flags, payload),
            Http2FrameType::GoAway => read_goaway_frame(flags, payload),
            Http2FrameType::WindowUpdate => read_window_update_frame(flags, payload),
            Http2FrameType::Continuation => read_continuation_frame(payload),
            Http2FrameType::Unknown(frame_type) => read_unknown_frame(*frame_type, flags, payload),
        }
    }
}

/// The fields of the nine-byte header that precedes every frame.
#[derive(Debug, Clone, Copy, PartialEq, Eq, Structural)]
pub struct Http2FrameHeader {
    pub length: u32,
    pub frame_type: Http2FrameType,
    pub flags: u8,
    pub stream_id: u32,
}

/// The result of reading a frame header: a 24-bit length, the type, the
/// flags and a 31-bit stream id (the reserved bit dropped); a length above
/// [`MAX_FRAME_SIZE`] is refused.
pub open spec fn frame_header_result(header: Seq<u8>, r: Result<Http2FrameHeader, &'static str>) -> bool {
    if be_value(header.take(3)) > MAX_FRAME_SIZE {
        r == Err::<Http2FrameHeader, &'static str>("Frame too large")
    } else {
        r matches Ok(h) && h.length as nat == be_value(header.take(3)) && h.frame_type
            == frame_type_of(header[3]) && h.flags == header[4] && h.stream_id == (be_value(
            header.subrange(5, 9),
        ) as u32) & 0x7FFF_FFFFu32
    }
}

/// Reads the header of the next frame from the first nine bytes that came.
pub fn read_frame_header(header: &[u8]) -> (r: Result<Http2FrameHeader, &'static str>)
    requires
        header@.len() >= 9,
    ensures
        frame_header_result(header@, r),
{
    let length = be_u32(vstd::slice::slice_subrange(header, 0, 3));
    let frame_type = Http2FrameType::from_u8(header[3]);
    let flags = header[4];
    let stream_id = be_u32(vstd::slice::slice_subrange(header, 5, 9));
    let stream_id = stream_id & 0x7FFF_FFFF;
    if length > MAX_FRAME_SIZE as u32 {
        return Err("Frame too large");
    }
    Ok(Http2FrameHeader { length, frame_type, flags, stream_id })
}

/// Reads a frame from its header and the payload bytes that followed it.
pub fn read_frame(header: &Http2FrameHeader, payload: &[u8]) -> (r: Result<Http2Frame, &'static str>)
    requires
        frame_readable(header.frame_type, payload@),
    ensures
        match r {
            Ok(f) => f.stream_id == header.stream_id && frame_result(
                header.frame_type,
                header.flags,
                payload@,
                Ok::<Http2InnerFrame, &'static str>(f.inner_frame),
            ),
            Err(e) => frame_result(
                header.frame_type,
                header.flags,
                payload@,
                Err::<Http2InnerFrame, &'static str>(e),
            ),
        },
{
    let inner_frame = header.frame_type.to_frame(header.flags, payload)?;
    Ok(Http2Frame { stream_id: header.stream_id, inner_frame })
}

/// The connection preface that a client sends before its first frame.
pub open spec fn is_preface(bytes: Seq<u8>) -> bool {
    bytes == seq![
        0x50u8, 0x52, 0x49, 0x20, 0x2a, 0x20, 0x48, 0x54, 0x54, 0x50, 0x2f, 0x32, 0x2e, 0x30,
        0x0d, 0x0a, 0x0d, 0x0a, 0x53, 0x4d, 0x0d, 0x0a, 0x0d, 0x0a,
    ]
}

/// Checks the connection preface `PRI * HTTP/2.0\r\n\r\nSM\r\n\r\n`.
pub fn check_preface(bytes: &[u8]) -> (r: bool)
    ensures
        r == is_preface(bytes@),
{
    let expected: [u8; 24] = [
        0x50u8, 0x52, 0x49, 0x20, 0x2a, 0x20, 0x48, 0x54, 0x54, 0x50, 0x2f, 0x32, 0x2e, 0x30,
        0x0d, 0x0a, 0x0d, 0x0a, 0x53, 0x4d, 0x0d, 0x0a, 0x0d, 0x0a,
    ];
    if bytes.len() != 24 {
        return false;
    }
    let mut i: usize = 0;
    while i < 24
        invariant
            i <= 24,
            bytes@.len() == 24,
            expected@ == seq![
                0x50u8, 0x52, 0x49, 0x20, 0x2a, 0x20, 0x48, 0x54, 0x54, 0x50, 0x2f, 0x32, 0x2e,
                0x30, 0x0d, 0x0a, 0x0d, 0x0a, 0x53, 0x4d, 0x0d, 0x0a, 0x0d, 0x0a,
            ],
            forall|j: int| 0 <= j < i ==> bytes@[j] == expected@[j],
        decreases 24 - i,
    {
        if bytes[i] != expected[i] {
            return false;
        }
        i = i + 1;
    }
    assert(bytes@ =~= expected@);
    true
}

} // verus!
