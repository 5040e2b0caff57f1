//! Recoverable engine failures.
use vstd::prelude::*;

use crate::text::{push_str, to_owned_string};

verus! {

/// Recoverable engine failure. Library code returns this instead of panicking.
#[derive(Debug, Clone, PartialEq, Eq)]
pub enum Error {
    UnsupportedPlatform,
    TargetNotFound(String),
    InvalidTarget(String),
    Capture(String),
    Encoder(String),
    Audio(String),
    Stream(String),
    /// An I/O failure, by its message.
    Io(String),
    NoFrames,
    Stopped,
    DiskFull,
    EncoderLost,
}

/// The message an error displays.
pub open spec fn error_message(e: Error) -> Seq<char> {
    match e {
        Error::UnsupportedPlatform => "LightCapture recording requires Windows"@,
        Error::TargetNotFound(s) => "capture target not found: "@ + s@,
        Error::InvalidTarget(s) => "invalid capture target: "@ + s@,
        Error::Capture(s) => "capture failed: "@ + s@,
        Error::Encoder(s) => "encoder failed: "@ + s@,
        Error::Audio(s) => "audio capture failed: "@ + s@,
        Error::Stream(s) => "stream failed: "@ + s@,
        Error::Io(s) => "I/O error: "@ + s@,
        Error::NoFrames => "no frames were encoded"@,
        Error::Stopped => "the recording session is no longer running"@,
        Error::DiskFull => "the disk is full"@,
        Error::EncoderLost => "the encoder was lost"@,
    }
}

fn prefixed(prefix: &str, s: &String) -> (r: String)
    ensures
        r@ == prefix@ + s@,
{
    let mut out = to_owned_string(prefix);
    push_str(&mut out, s.as_str());
    out
}

impl Error {
    /// The message this error displays.
    pub fn message(&self) -> (r: String)
        ensures
            r@ == error_message(*self),
    {
        match self {
            Error::UnsupportedPlatform => to_owned_string("LightCapture recording requires Windows"),
            Error::TargetNotFound(s) => prefixed("capture target not found: ", s),
            Error::InvalidTarget(s) => prefixed("invalid capture target: ", s),
            Error::Capture(s) => prefixed("capture failed: ", s),
            Error::Encoder(s) => prefixed("encoder failed: ", s),
            Error::Audio(s) => prefixed("audio capture failed: ", s),
            Error::Stream(s) => prefixed("stream failed: ", s),
            Error::Io(s) => prefixed("I/O error: ", s),
            Error::NoFrames => to_owned_string("no frames were encoded"),
            Error::Stopped => to_owned_string("the recording session is no longer running"),
            Error::DiskFull => to_owned_string("the disk is full"),
            Error::EncoderLost => to_owned_string("the encoder was lost"),
        }
    }
}

} // verus!
