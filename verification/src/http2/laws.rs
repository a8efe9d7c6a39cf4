//! Properties that hold across the HTTP/2 frame functions.
use super::error_codes::{frame_error_code, FrameError};
use super::frame_data::{data_frame_readable, data_frame_result};
use super::frame_goaway::goaway_frame_result;
use super::frame_header::{header_frame_readable, header_frame_result};
use super::frame_priority::priority_frame_result;
use super::frame_push_promise::{push_promise_frame_readable, push_promise_frame_result};
use super::frame_reset_stream::reset_stream_frame_result;
use super::frame_window_update::window_update_frame_result;
use super::frame_settings::{settings_frame_result, settings_identifier_of, Http2SettingsEntry, SettingsIdentifier};
use super::{
    be_bytes_u32, frame_header_result, frame_readable, frame_result, MAX_FRAME_SIZE, frame_type_code, frame_type_of, inner_frame_len, Http2Frame,
    Http2FrameType, Http2InnerFrame, WriteOnto,
};
use crate::wire::be_value;
use vstd::prelude::*;

verus! {

/// Every type byte survives `from_u8` followed by `into_u8`.
pub proof fn lemma_frame_type_byte_roundtrip(value: u8)
    ensures
        frame_type_code(frame_type_of(value)) == value,
{
}

/// A frame type survives `into_u8` followed by `from_u8`, unless it is an
/// unknown type that carries the byte of a known one.
pub proof fn lemma_frame_type_roundtrip(t: Http2FrameType)
    requires
        !(t matches Http2FrameType::Unknown(v) && v <= 9),
    ensures
        frame_type_of(frame_type_code(t)) == t,
{
}

/// A frame read from a payload reports that payload's length as its own.
pub proof fn lemma_read_frame_len(
    t: Http2FrameType,
    flags: u8,
    payload: Seq<u8>,
    frame: Http2InnerFrame,
)
    requires
        frame_readable(t, payload),
        frame_result(t, flags, payload, Ok::<Http2InnerFrame, &'static str>(frame)),
    ensures
        inner_frame_len(frame) == payload.len(),
{
    match t {
        Http2FrameType::Settings => {
            let n = payload.len();
            assert(n == 6 * (n / 6) + n % 6) by (nonlinear_arith);
            assert(n % 6 == 0);
        },
        _ => {},
    }
}

/// A frame is read as the variant of the type it was read as.
pub proof fn lemma_read_frame_variant(
    t: Http2FrameType,
    flags: u8,
    payload: Seq<u8>,
    frame: Http2InnerFrame,
)
    requires
        frame_result(t, flags, payload, Ok::<Http2InnerFrame, &'static str>(frame)),
    ensures
        t is Data <==> frame is Data,
        t is Headers <==> frame is Headers,
        t is Priority <==> frame is Priority,
        t is RstStream <==> frame is RstStream,
        t is Settings <==> frame is Settings,
        t is PushPromise <==> frame is PushPromise,
        t is Ping <==> frame is Ping,
        t is GoAway <==> frame is GoAway,
        t is WindowUpdate <==> frame is WindowUpdate,
        t is Continuation <==> frame is Continuation,
        t is Unknown <==> frame is Unknown,
{
}

/// The payload that `write_onto` writes for a CONTINUATION frame reads back,
/// as a CONTINUATION payload, as the same fragment.
pub proof fn lemma_continuation_roundtrip(frame: Http2InnerFrame, flags: u8, back: Http2InnerFrame)
    requires
        frame is Continuation,
        frame_result(Http2FrameType::Continuation, flags, frame.wire(), Ok::<Http2InnerFrame, &'static str>(back)),
    ensures
        back is Continuation,
        back->Continuation_0.header_block_fragment@ == frame->Continuation_0.header_block_fragment@,
{
}

/// The four big-endian bytes of `x` spell `x`.
pub proof fn lemma_be_bytes_u32_value(x: u32)
    ensures
        be_value(be_bytes_u32(x)) == x,
{
    let s = be_bytes_u32(x);
    let a = (x >> 24u32) as u8;
    let b = (x >> 16u32) as u8;
    let c = (x >> 8u32) as u8;
    let d = x as u8;
    assert(s.drop_last().drop_last().drop_last().drop_last() =~= Seq::<u8>::empty());
    assert(s.drop_last().drop_last().drop_last() =~= seq![a]);
    assert(s.drop_last().drop_last() =~= seq![a, b]);
    assert(s.drop_last() =~= seq![a, b, c]);
    reveal_with_fuel(be_value, 5);
    assert(be_value(s) == ((a as nat * 256 + b as nat) * 256 + c as nat) * 256 + d as nat);
    assert(x as int == ((a as int * 256 + b as int) * 256 + c as int) * 256 + d as int) by (bit_vector)
        requires
            a == (x >> 24u32) as u8,
            b == (x >> 16u32) as u8,
            c == (x >> 8u32) as u8,
            d == x as u8,
    ;
}

/// A frame is written with its payload length first: the first four bytes
/// spell, big-endian, the length of the payload (below `2^32`), then come
/// the type byte, the flag byte and the payload's own bytes. For a frame
/// that can be written, the length announced is the number of bytes that
/// follow the six-byte prefix.
pub proof fn lemma_frame_wire_length(f: Http2Frame)
    requires
        inner_frame_len(f.inner_frame) < 0x1_0000_0000,
    ensures
        f.wire().len() == 6 + f.inner_frame.wire().len(),
        be_value(f.wire().take(4)) == inner_frame_len(f.inner_frame),
        f.wire().skip(6) == f.inner_frame.wire(),
        f.writable() ==> be_value(f.wire().take(4)) == f.wire().len() - 6,
{
    let n = inner_frame_len(f.inner_frame) as u32;
    lemma_be_bytes_u32_value(n);
    assert(f.wire().take(4) =~= be_bytes_u32(n));
    assert(f.wire().skip(6) =~= f.inner_frame.wire());
}

/// The wire code of each setting, as RFC 7540 (section 6.5.2) assigns it.
pub open spec fn settings_code(id: SettingsIdentifier) -> nat {
    match id {
        SettingsIdentifier::HeaderTableSize => 0x1,
        SettingsIdentifier::EnablePush => 0x2,
        SettingsIdentifier::MaxConcurrentStreams => 0x3,
        SettingsIdentifier::InitialWindowSize => 0x4,
        SettingsIdentifier::MaxFrameSize => 0x5,
        SettingsIdentifier::MaxHeaderListSize => 0x6,
    }
}

/// A wire identifier names a setting exactly when it is that setting's
/// RFC 7540 code.
pub proof fn lemma_settings_identifier_codes(value: nat, id: SettingsIdentifier)
    ensures
        settings_identifier_of(value) == Some(id) <==> settings_code(id) == value,
{
}

/// A SETTINGS payload of one entry, written as the two-byte code of a
/// setting and a four-byte value, reads back as that setting with that
/// value.
pub proof fn lemma_settings_entry_read(flags: u8, id: SettingsIdentifier, value: u32, r: Result<Http2InnerFrame, &'static str>)
    requires
        flags & 0x1 != 0x1,
        settings_frame_result(flags, seq![0u8, settings_code(id) as u8] + be_bytes_u32(value), r),
    ensures
        r matches Ok(Http2InnerFrame::Settings(s)) && s.settings@ == seq![
            Http2SettingsEntry { identifier: id, value },
        ],
{
    let p = seq![0u8, settings_code(id) as u8] + be_bytes_u32(value);
    assert(p.subrange(0, 2) =~= seq![0u8, settings_code(id) as u8]);
    assert(p.subrange(2, 6) =~= be_bytes_u32(value));
    lemma_be_bytes_u32_value(value);
    let two = p.subrange(0, 2);
    assert(two.drop_last().drop_last() =~= Seq::<u8>::empty());
    assert(two.drop_last() =~= seq![0u8]);
    reveal_with_fuel(be_value, 3);
    assert(be_value(two) == settings_code(id));
    assert(settings_identifier_of(settings_code(id)) == Some(id));
    if let Ok(Http2InnerFrame::Settings(s)) = r {
        assert(s.settings@.len() == 1);
        assert(s.settings@ =~= seq![Http2SettingsEntry { identifier: id, value }]);
    }
}

/// A HEADERS payload laid out as the pad length, four bytes of stream
/// dependency, the weight, the header block fragment and then that many
/// bytes of padding reads back as those fields: the fragment is what lies
/// between the six fixed bytes and the padding, and the padding is the
/// tail.
pub proof fn lemma_header_frame_fields(
    flags: u8,
    dependency: u32,
    weight: u8,
    fragment: Seq<u8>,
    padding: Seq<u8>,
    r: Result<Http2InnerFrame, &'static str>,
)
    requires
        padding.len() < 256,
        header_frame_result(
            flags,
            seq![padding.len() as u8] + be_bytes_u32(dependency) + seq![weight] + fragment + padding,
            r,
        ),
    ensures
        header_frame_readable(seq![padding.len() as u8] + be_bytes_u32(dependency) + seq![weight] + fragment + padding),
        r matches Ok(Http2InnerFrame::Headers(h)) && {
            &&& h.flags.flags == flags
            &&& h.exclusive_and_stream_dependency == dependency
            &&& h.weight == weight
            &&& h.header_block_fragment@ == fragment
            &&& h.padding@ == padding
        },
{
    let p = seq![padding.len() as u8] + be_bytes_u32(dependency) + seq![weight] + fragment + padding;
    assert(p[0] as int == padding.len());
    assert(p.subrange(1, 5) =~= be_bytes_u32(dependency));
    lemma_be_bytes_u32_value(dependency);
    assert(p[5] == weight);
    assert(p.subrange(6, p.len() - padding.len()) =~= fragment);
    assert(p.skip(p.len() - padding.len()) =~= padding);
}

/// The type byte of each frame type as RFC 7540 (section 6) assigns it; an
/// unknown type keeps its own byte.
pub open spec fn rfc_frame_type_code(t: Http2FrameType) -> u8 {
    match t {
        Http2FrameType::Data => 0x0,
        Http2FrameType::Headers => 0x1,
        Http2FrameType::Priority => 0x2,
        Http2FrameType::RstStream => 0x3,
        Http2FrameType::Settings => 0x4,
        Http2FrameType::PushPromise => 0x5,
        Http2FrameType::Ping => 0x6,
        Http2FrameType::GoAway => 0x7,
        Http2FrameType::WindowUpdate => 0x8,
        Http2FrameType::Continuation => 0x9,
        Http2FrameType::Unknown(v) => v,
    }
}

/// Frame types are read from and written as their RFC 7540 type bytes: a
/// byte is read as the type whose code it is (as an unknown type only when
/// no defined type has it), and a type is written as its code.
pub proof fn lemma_frame_type_rfc(value: u8, t: Http2FrameType)
    ensures
        frame_type_code(t) == rfc_frame_type_code(t),
        frame_type_of(value) == t <==> (rfc_frame_type_code(t) == value && !(t matches Http2FrameType::Unknown(
            v,
        ) && v <= 9)),
{
}

/// The three big-endian bytes of a number below `2^24`.
pub open spec fn be_bytes_u24(x: u32) -> Seq<u8> {
    seq![(x >> 16u32) as u8, (x >> 8u32) as u8, x as u8]
}

/// Three big-endian bytes spell the number they were written from.
pub proof fn lemma_be_bytes_u24_value(x: u32)
    requires
        x < 0x100_0000,
    ensures
        be_value(be_bytes_u24(x)) == x,
{
    let s = be_bytes_u24(x);
    let a = (x >> 16u32) as u8;
    let b = (x >> 8u32) as u8;
    let c = x as u8;
    assert(s.drop_last().drop_last().drop_last() =~= Seq::<u8>::empty());
    assert(s.drop_last().drop_last() =~= seq![a]);
    assert(s.drop_last() =~= seq![a, b]);
    reveal_with_fuel(be_value, 4);
    assert(be_value(s) == (a as nat * 256 + b as nat) * 256 + c as nat);
    assert(x as int == (a as int * 256 + b as int) * 256 + c as int) by (bit_vector)
        requires
            x < 0x100_0000,
            a == (x >> 16u32) as u8,
            b == (x >> 8u32) as u8,
            c == x as u8,
    ;
}

/// A frame header laid out as a 24-bit length, the type byte, the flag
/// byte and the stream id reads back as those fields, the reserved top bit
/// of the stream id dropped; a length above the maximum frame size is
/// refused.
pub proof fn lemma_frame_header_fields(
    length: u32,
    type_byte: u8,
    flags: u8,
    stream_id: u32,
    r: Result<super::Http2FrameHeader, &'static str>,
)
    requires
        length < 0x100_0000,
        frame_header_result(be_bytes_u24(length) + seq![type_byte, flags] + be_bytes_u32(stream_id), r),
    ensures
        length > MAX_FRAME_SIZE ==> r is Err,
        length <= MAX_FRAME_SIZE ==> (r matches Ok(h) && {
            &&& h.length == length
            &&& h.frame_type == frame_type_of(type_byte)
            &&& h.flags == flags
            &&& h.stream_id == stream_id & 0x7FFF_FFFFu32
        }),
{
    let hd = be_bytes_u24(length) + seq![type_byte, flags] + be_bytes_u32(stream_id);
    assert(hd.take(3) =~= be_bytes_u24(length));
    assert(hd.subrange(5, 9) =~= be_bytes_u32(stream_id));
    lemma_be_bytes_u24_value(length);
    lemma_be_bytes_u32_value(stream_id);
}

/// A DATA payload laid out as the pad length, the data and then that many
/// bytes of padding reads back as that data and that padding.
pub proof fn lemma_data_frame_fields(
    flags: u8,
    data: Seq<u8>,
    padding: Seq<u8>,
    r: Result<Http2InnerFrame, &'static str>,
)
    requires
        padding.len() < 256,
        data_frame_result(flags, seq![padding.len() as u8] + data + padding, r),
    ensures
        data_frame_readable(seq![padding.len() as u8] + data + padding),
        r matches Ok(Http2InnerFrame::Data(d)) && d.flags.flags == flags && d.payload@ == data
            && d.padding@ == padding,
{
    let p = seq![padding.len() as u8] + data + padding;
    assert(p[0] as int == padding.len());
    assert(p.subrange(1, p.len() - padding.len()) =~= data);
    assert(p.skip(p.len() - padding.len()) =~= padding);
}

/// A PUSH_PROMISE payload laid out as the pad length, four bytes of
/// promised stream id, the header block fragment and then that many bytes
/// of padding reads back as those fields.
pub proof fn lemma_push_promise_fields(
    promised: u32,
    fragment: Seq<u8>,
    padding: Seq<u8>,
    r: Result<Http2InnerFrame, &'static str>,
)
    requires
        padding.len() < 256,
        push_promise_frame_result(seq![padding.len() as u8] + be_bytes_u32(promised) + fragment + padding, r),
    ensures
        push_promise_frame_readable(seq![padding.len() as u8] + be_bytes_u32(promised) + fragment + padding),
        r matches Ok(Http2InnerFrame::PushPromise(pp)) && pp.reserved_and_promised_stream_id == promised
            && pp.header_block_fragment@ == fragment && pp.padding@ == padding,
{
    let p = seq![padding.len() as u8] + be_bytes_u32(promised) + fragment + padding;
    assert(p[0] as int == padding.len());
    assert(p.subrange(1, 5) =~= be_bytes_u32(promised));
    lemma_be_bytes_u32_value(promised);
    assert(p.subrange(5, p.len() - padding.len()) =~= fragment);
    assert(p.skip(p.len() - padding.len()) =~= padding);
}

/// A GOAWAY payload laid out as the last stream id, the RFC 7540 code of
/// an error and debug data reads back as those fields.
pub proof fn lemma_goaway_fields(
    last_stream_id: u32,
    error: FrameError,
    debug: Seq<u8>,
    r: Result<Http2InnerFrame, &'static str>,
)
    requires
        goaway_frame_result(be_bytes_u32(last_stream_id) + be_bytes_u32(frame_error_code(error)) + debug, r),
    ensures
        r matches Ok(Http2InnerFrame::GoAway(g)) && g.reserved_and_last_stream_id == last_stream_id
            && g.error_code == error && g.additional_debug_data@ == debug,
{
    let p = be_bytes_u32(last_stream_id) + be_bytes_u32(frame_error_code(error)) + debug;
    assert(p.take(4) =~= be_bytes_u32(last_stream_id));
    assert(p.subrange(4, 8) =~= be_bytes_u32(frame_error_code(error)));
    assert(p.skip(8) =~= debug);
    lemma_be_bytes_u32_value(last_stream_id);
    lemma_be_bytes_u32_value(frame_error_code(error));
    super::error_codes::lemma_frame_error_roundtrip(frame_error_code(error), error);
}

/// An RST_STREAM payload holding the RFC 7540 code of an error reads back
/// as that error.
pub proof fn lemma_reset_stream_fields(error: FrameError, r: Result<Http2InnerFrame, &'static str>)
    requires
        reset_stream_frame_result(be_bytes_u32(frame_error_code(error)), r),
    ensures
        r matches Ok(Http2InnerFrame::RstStream(f)) && f.error_code == error,
{
    lemma_be_bytes_u32_value(frame_error_code(error));
    super::error_codes::lemma_frame_error_roundtrip(frame_error_code(error), error);
}

/// A PRIORITY payload laid out as four bytes of stream dependency and the
/// weight reads back as those fields (with no flags set).
pub proof fn lemma_priority_fields(dependency: u32, weight: u8, r: Result<Http2InnerFrame, &'static str>)
    requires
        priority_frame_result(0, be_bytes_u32(dependency) + seq![weight], r),
    ensures
        r matches Ok(Http2InnerFrame::Priority(pr)) && pr.exclusive_and_stream_dependency == dependency
            && pr.weight == weight,
{
    let p = be_bytes_u32(dependency) + seq![weight];
    assert(p.take(4) =~= be_bytes_u32(dependency));
    lemma_be_bytes_u32_value(dependency);
}

/// A WINDOW_UPDATE payload of four bytes reads back as the number they
/// spell.
pub proof fn lemma_window_update_fields(increment: u32, r: Result<Http2InnerFrame, &'static str>)
    requires
        window_update_frame_result(be_bytes_u32(increment), r),
    ensures
        r matches Ok(Http2InnerFrame::WindowUpdate(w)) && w.reserved_and_window_size_increment == increment,
{
    lemma_be_bytes_u32_value(increment);
}

} // verus!
