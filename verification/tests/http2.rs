use proto_tower::h2c;
use proto_tower::http2::error_codes::{FrameError, FrameErrorCode};
use proto_tower::http2::frame_continuation::{read_continuation_frame, Http2FrameContinuation};
use proto_tower::http2::frame_data::{read_data_frame, Http2FrameDataFlags};
use proto_tower::http2::frame_goaway::read_goaway_frame;
use proto_tower::http2::frame_header::{read_header_frame, Http2FrameHeadersFlags};
use proto_tower::http2::frame_ping::read_ping_frame;
use proto_tower::http2::frame_priority::read_priority_frame;
use proto_tower::http2::frame_push_promise::{read_push_promise_frame, Http2FramePushPromiseFlags};
use proto_tower::http2::frame_reset_stream::read_reset_stream_frame;
use proto_tower::http2::frame_settings::{read_settings_frame, Http2FrameSettingsFlags, SettingsIdentifier};
use proto_tower::http2::frame_unknown::read_unknown_frame;
use proto_tower::http2::frame_window_update::read_window_update_frame;
use proto_tower::http2::{
    check_preface, read_frame, read_frame_header, Http2Frame, Http2FrameType, Http2InnerFrame, WriteOnto,
};

#[test]
fn frame_header_is_read() {
    let header = read_frame_header(&[0x00, 0x00, 0x04, 0x08, 0x00, 0x80, 0x00, 0x00, 0x01]).unwrap();
    assert_eq!(header.length, 4);
    assert_eq!(header.frame_type, Http2FrameType::WindowUpdate);
    assert_eq!(header.flags, 0);
    // the reserved bit is dropped
    assert_eq!(header.stream_id, 1);
}

#[test]
fn frame_header_too_large() {
    let res = read_frame_header(&[0x00, 0x40, 0x01, 0x00, 0x00, 0x00, 0x00, 0x00, 0x01]);
    assert_eq!(res.err(), Some("Frame too large"));
}

#[test]
fn frame_is_read_from_header_and_payload() {
    let header = read_frame_header(&[0x00, 0x00, 0x04, 0x08, 0x00, 0x00, 0x00, 0x00, 0x03]).unwrap();
    let frame = read_frame(&header, &[0x00, 0x00, 0x10, 0x00]).unwrap();
    assert_eq!(frame.stream_id, 3);
    assert_eq!(frame.inner_frame.len(), 4);
    match frame.inner_frame {
        Http2InnerFrame::WindowUpdate(w) => assert_eq!(w.reserved_and_window_size_increment, 4096),
        other => panic!("unexpected frame {:?}", other),
    }
}

#[test]
fn frame_type_bytes_round_trip() {
    for b in 0u8..=255 {
        assert_eq!(Http2FrameType::from_u8(b).into_u8(), b);
    }
    assert_eq!(Http2FrameType::from_u8(4), Http2FrameType::Settings);
    assert_eq!(Http2FrameType::from_u8(200), Http2FrameType::Unknown(200));
    assert_eq!(Http2FrameType::Continuation.into_u8(), 9);
}

#[test]
fn error_codes_round_trip() {
    assert_eq!(8u32.as_frame_err(), Ok(FrameError::Cancel));
    assert_eq!(13u32.as_frame_err(), Ok(FrameError::Http11Required));
    assert_eq!(14u32.as_frame_err(), Err(()));
    assert_eq!(11u32.as_u32(), 11);
    let all = [
        FrameError::NoError,
        FrameError::ProtocolError,
        FrameError::InternalError,
        FrameError::FlowControlError,
        FrameError::SettingsTimeout,
        FrameError::StreamClosed,
        FrameError::FrameSizeError,
        FrameError::RefusedStream,
        FrameError::Cancel,
        FrameError::CompressionError,
        FrameError::ConnectError,
        FrameError::EnhanceYourCalm,
        FrameError::InadequateSecurity,
        FrameError::Http11Required,
    ];
    for (code, e) in all.iter().enumerate() {
        assert_eq!((code as u32).as_frame_err(), Ok(*e));
    }
}

#[test]
fn data_frame_with_padding() {
    match read_data_frame(0x1, &[2, b'h', b'i', 0, 0]).unwrap() {
        Http2InnerFrame::Data(d) => {
            assert_eq!(d.payload, b"hi".to_vec());
            assert_eq!(d.padding, vec![0, 0]);
            assert!(d.flags.flags_get_end_stream());
            assert!(!d.flags.flags_get_padded());
        }
        other => panic!("unexpected frame {:?}", other),
    }
}

#[test]
fn data_frame_needs_pad_length() {
    assert_eq!(read_data_frame(0, &[]).err(), Some("Expected 1 byte padding length"));
}

#[test]
fn data_flags_set_and_get() {
    let mut flags = Http2FrameDataFlags::from_u8(0);
    flags.flags_set_end_stream(true);
    assert!(flags.flags_get_end_stream());
    assert_eq!(flags.as_u8(), 0x1);
    flags.flags_set_padded(true);
    assert!(flags.flags_get_padded());
    assert_eq!(flags.as_u8(), 0x9);
    flags.flags_set_end_stream(false);
    assert!(!flags.flags_get_end_stream());
    assert!(flags.flags_get_padded());
    assert_eq!(flags.as_u8(), 0x8);
}

#[test]
fn header_flags_set_and_get() {
    let mut flags = Http2FrameHeadersFlags::from_u8(0xff);
    assert!(flags.get_end_stream() && flags.get_padded() && flags.get_priority());
    flags.set_priority(false);
    assert!(!flags.get_priority());
    assert!(flags.get_padded());
    flags.set_end_stream(false);
    flags.set_padded(false);
    assert_eq!(flags.as_u8(), 0xff & !0x1 & !0x8 & !0x20);
}

#[test]
fn push_promise_flags_set_and_get() {
    let mut flags = Http2FramePushPromiseFlags::from_u8(0);
    flags.set_end_headers(true);
    assert!(flags.get_end_headers());
    assert!(!flags.get_padded());
    flags.set_padded(true);
    assert_eq!(flags.as_u8(), 0x4 | 0x8);
}

#[test]
fn settings_frame_entries() {
    let payload = [0x00, 0x03, 0x00, 0x00, 0x00, 0x64, 0x00, 0x04, 0x00, 0x01, 0x00, 0x00];
    match read_settings_frame(0, &payload).unwrap() {
        Http2InnerFrame::Settings(s) => {
            assert_eq!(s.settings.len(), 2);
            assert_eq!(s.settings[0].identifier, SettingsIdentifier::MaxConcurrentStreams);
            assert_eq!(s.settings[0].value, 100);
            assert_eq!(s.settings[1].identifier, SettingsIdentifier::InitialWindowSize);
            assert_eq!(s.settings[1].value, 65536);
        }
        other => panic!("unexpected frame {:?}", other),
    }
}

#[test]
fn settings_frame_errors() {
    assert_eq!(
        read_settings_frame(0x1, &[0, 1, 0, 0, 0, 1]).err(),
        Some("Settings frame with ACK flag must have empty payload")
    );
    assert_eq!(read_settings_frame(0, &[0, 1, 0]).err(), Some("Settings frame payload must be multiple of 6 bytes"));
    assert_eq!(read_settings_frame(0, &[0, 9, 0, 0, 0, 1]).err(), Some("Invalid identifier"));
    assert!(read_settings_frame(0x1, &[]).is_ok());
}

#[test]
fn settings_flags_ack() {
    let mut flags = Http2FrameSettingsFlags::from_u8(0);
    assert!(!flags.get_ack());
    flags.set_ack(true);
    assert!(flags.get_ack());
    assert_eq!(flags.as_u8(), 1);
}

#[test]
fn goaway_frame() {
    match read_goaway_frame(0, &[0, 0, 0, 5, 0, 0, 0, 1, b'x']).unwrap() {
        Http2InnerFrame::GoAway(g) => {
            assert_eq!(g.reserved_and_last_stream_id, 5);
            assert_eq!(g.error_code, FrameError::ProtocolError);
            assert_eq!(g.additional_debug_data, b"x".to_vec());
        }
        other => panic!("unexpected frame {:?}", other),
    }
    assert_eq!(read_goaway_frame(0, &[0, 0, 0]).err(), Some("Expected at least 8 bytes for goaway frame"));
    assert_eq!(read_goaway_frame(0, &[0, 0, 0, 5, 0, 0, 0, 99]).err(), Some("Invalid error code"));
}

#[test]
fn reset_stream_and_window_update_sizes() {
    match read_reset_stream_frame(0, &[0, 0, 0, 2]).unwrap() {
        Http2InnerFrame::RstStream(r) => assert_eq!(r.error_code, FrameError::InternalError),
        other => panic!("unexpected frame {:?}", other),
    }
    assert!(read_reset_stream_frame(0, &[0, 0, 2]).is_err());
    assert_eq!(read_window_update_frame(0, &[0, 0]).err(), Some("Expected 4 bytes for window update frame"));
}

#[test]
fn ping_priority_header_and_push_promise_frames() {
    match read_ping_frame(1, &[1, 2, 3, 4, 5, 6, 7, 8]).unwrap() {
        Http2InnerFrame::Ping(p) => {
            assert_eq!(p.flags, 1);
            assert_eq!(p.opaque_data, [1, 2, 3, 4, 5, 6, 7, 8]);
        }
        other => panic!("unexpected frame {:?}", other),
    }
    assert!(read_ping_frame(0, &[1, 2, 3]).is_err());
    match read_priority_frame(0, &[0x80, 0, 0, 3, 16]).unwrap() {
        Http2InnerFrame::Priority(p) => {
            assert_eq!(p.exclusive_and_stream_dependency, 0x8000_0003);
            assert_eq!(p.weight, 16);
        }
        other => panic!("unexpected frame {:?}", other),
    }
    match read_header_frame(0x4, &[0, 0, 0, 0, 1, 7, b'a', b'b']).unwrap() {
        Http2InnerFrame::Headers(h) => {
            assert_eq!(h.exclusive_and_stream_dependency, 1);
            assert_eq!(h.weight, 7);
            assert_eq!(h.header_block_fragment, b"ab".to_vec());
            assert!(h.padding.is_empty());
        }
        other => panic!("unexpected frame {:?}", other),
    }
    match read_push_promise_frame(0, &[0, 0, 0, 0, 2, b'h', b'b']).unwrap() {
        Http2InnerFrame::PushPromise(p) => {
            assert_eq!(p.reserved_and_promised_stream_id, 2);
            assert_eq!(p.header_block_fragment, b"hb".to_vec());
        }
        other => panic!("unexpected frame {:?}", other),
    }
}

#[test]
fn unknown_and_continuation_frames() {
    match read_unknown_frame(0x42, 3, &[9, 9]).unwrap() {
        Http2InnerFrame::Unknown(u) => {
            assert_eq!(u.frame_type, 0x42);
            assert_eq!(u.flags, 3);
            assert_eq!(u.payload, vec![9, 9]);
        }
        other => panic!("unexpected frame {:?}", other),
    }
    match read_continuation_frame(&[1, 2, 3]).unwrap() {
        Http2InnerFrame::Continuation(c) => assert_eq!(c.header_block_fragment, vec![1, 2, 3]),
        other => panic!("unexpected frame {:?}", other),
    }
}

#[test]
fn continuation_frame_is_written() {
    let frame = Http2Frame {
        stream_id: 1,
        inner_frame: Http2InnerFrame::Continuation(Http2FrameContinuation { header_block_fragment: vec![0xaa, 0xbb] }),
    };
    let mut out = Vec::new();
    frame.write_onto(&mut out).unwrap();
    assert_eq!(out, vec![0, 0, 0, 2, 9, 0, 0xaa, 0xbb]);
}

#[test]
fn preface_is_checked() {
    assert!(check_preface(b"PRI * HTTP/2.0\r\n\r\nSM\r\n\r\n"));
    assert!(!check_preface(b"PRI * HTTP/2.0\r\n\r\nSM\r\n\r"));
    assert!(!check_preface(b"GET / HTTP/1.1\r\n\r\n\r\n\r\n\r"));
}

#[test]
fn h2c_frames_keep_raw_codes() {
    match h2c::read_goaway_frame(0, &[0, 0, 0, 7, 0, 0, 0, 99]).unwrap() {
        h2c::Http2Frame::GoAway(g) => {
            assert_eq!(g.reserved_and_last_stream_id, 7);
            assert_eq!(g.error_code, 99);
            assert!(g.additional_debug_data.is_empty());
        }
        other => panic!("unexpected frame {:?}", other),
    }
    match h2c::read_reset_stream_frame(0, &[0, 0, 1, 0]).unwrap() {
        h2c::Http2Frame::RstStream(r) => assert_eq!(r.error_code, 256),
        other => panic!("unexpected frame {:?}", other),
    }
    assert!(h2c::read_reset_stream_frame(0, &[0]).is_err());
    match h2c::read_unknown_frame(11, 0, b"zz").unwrap() {
        h2c::Http2Frame::Unknown(u) => assert_eq!(u.payload, b"zz".to_vec()),
        other => panic!("unexpected frame {:?}", other),
    }
    match h2c::read_continuation_frame(b"c").unwrap() {
        h2c::Http2Frame::Continuation(c) => assert_eq!(c.header_block_fragment, b"c".to_vec()),
        other => panic!("unexpected frame {:?}", other),
    }
}
