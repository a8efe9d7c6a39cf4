//! The error codes that RST_STREAM and GOAWAY frames carry.
use vstd::prelude::*;

verus! {

/// Conversion between a 32-bit wire error code and [`FrameError`].
pub trait FrameErrorCode {
    fn as_frame_err(&self) -> Result<FrameError, ()>;

    fn as_u32(&self) -> u32;
}

#[derive(Debug, Clone, Copy, PartialEq, Eq, Structural)]
pub enum FrameError {
    NoError,
    ProtocolError,
    InternalError,
    FlowControlError,
    SettingsTimeout,
    StreamClosed,
    FrameSizeError,
    RefusedStream,
    Cancel,
    CompressionError,
    ConnectError,
    EnhanceYourCalm,
    InadequateSecurity,
    Http11Required,
}

/// The wire code of an error.
pub open spec fn frame_error_code(e: FrameError) -> u32 {
    match e {
        FrameError::NoError => 0,
        FrameError::ProtocolError => 1,
        FrameError::InternalError => 2,
        FrameError::FlowControlError => 3,
        FrameError::SettingsTimeout => 4,
        FrameError::StreamClosed => 5,
        FrameError::FrameSizeError => 6,
        FrameError::RefusedStream => 7,
        FrameError::Cancel => 8,
        FrameError::CompressionError => 9,
        FrameError::ConnectError => 10,
        FrameError::EnhanceYourCalm => 11,
        FrameError::InadequateSecurity => 12,
        FrameError::Http11Required => 13,
    }
}

/// The error that a wire code names, if any: the codes `0..=13` are defined.
pub open spec fn frame_error_of(code: u32) -> Option<FrameError> {
    if code == 0 {
        Some(FrameError::NoError)
    } else if code == 1 {
        Some(FrameError::ProtocolError)
    } else if code == 2 {
        Some(FrameError::InternalError)
    } else if code == 3 {
        Some(FrameError::FlowControlError)
    } else if code == 4 {
        Some(FrameError::SettingsTimeout)
    } else if code == 5 {
        Some(FrameError::StreamClosed)
    } else if code == 6 {
        Some(FrameError::FrameSizeError)
    } else if code == 7 {
        Some(FrameError::RefusedStream)
    } else if code == 8 {
        Some(FrameError::Cancel)
    } else if code == 9 {
        Some(FrameError::CompressionError)
    } else if code == 10 {
        Some(FrameError::ConnectError)
    } else if code == 11 {
        Some(FrameError::EnhanceYourCalm)
    } else if code == 12 {
        Some(FrameError::InadequateSecurity)
    } else if code == 13 {
        Some(FrameError::Http11Required)
    } else {
        None
    }
}

impl FrameErrorCode for u32 {
    fn as_frame_err(&self) -> (r: Result<FrameError, ()>)
        ensures
            match frame_error_of(*self) {
                Some(e) => r == Ok::<FrameError, ()>(e),
                None => r is Err,
            },
    {
        match *self {
            0 => Ok(FrameError::NoError),
            1 => Ok(FrameError::ProtocolError),
            2 => Ok(FrameError::InternalError),
            3 => Ok(FrameError::FlowControlError),
            4 => Ok(FrameError::SettingsTimeout),
            5 => Ok(FrameError::StreamClosed),
            6 => Ok(FrameError::FrameSizeError),
            7 => Ok(FrameError::RefusedStream),
            8 => Ok(FrameError::Cancel),
            9 => Ok(FrameError::CompressionError),
            10 => Ok(FrameError::ConnectError),
            11 => Ok(FrameError::EnhanceYourCalm),
            12 => Ok(FrameError::InadequateSecurity),
            13 => Ok(FrameError::Http11Required),
            _ => Err(()),
        }
    }

    fn as_u32(&self) -> (r: u32)
        ensures
            r == *self,
    {
        *self
    }
}

/// A wire code names an error exactly when it is at most 13, and the
/// error that it names has that code again.
pub proof fn lemma_frame_error_roundtrip(code: u32, e: FrameError)
    ensures
        frame_error_of(code) is Some <==> code <= 13,
        frame_error_of(code) == Some(e) <==> frame_error_code(e) == code,
        frame_error_of(frame_error_code(e)) == Some(e),
{
}

} // verus!
