//! Errors of the audio recorder and events of a streaming transcription.
use vstd::prelude::*;
use crate::chars::{to_chars, from_chars};
use crate::samples::append_copy;

verus! {

/// Why the audio recorder failed.
#[derive(Debug)]
pub enum RecorderError {
    NoInputDevice,
    ConfigError(String),
    StreamError(String),
    UnsupportedFormat(String),
    Other(String),
}

/// The message text for an error kind and its detail.
pub open spec fn recorder_message(e: RecorderError) -> Seq<char> {
    match e {
        RecorderError::NoInputDevice => "No input device found"@,
        RecorderError::ConfigError(m) => "Audio config error: "@ + m@,
        RecorderError::StreamError(m) => "Audio stream error: "@ + m@,
        RecorderError::UnsupportedFormat(m) => "Unsupported audio sample format: "@ + m@,
        RecorderError::Other(m) => "Audio error: "@ + m@,
    }
}

fn prefixed(prefix: &str, detail: &String) -> (r: String)
    ensures
        r@ == prefix@ + detail@,
{
    let mut out = to_chars(prefix);
    append_copy(&mut out, to_chars(detail.as_str()).as_slice());
    from_chars(out.as_slice())
}

impl RecorderError {
    /// A message for the user.
    pub fn message(&self) -> (r: String)
        ensures
            r@ == recorder_message(*self),
    {
        match self {
            RecorderError::NoInputDevice => from_chars(to_chars("No input device found").as_slice()),
            RecorderError::ConfigError(m) => prefixed("Audio config error: ", m),
            RecorderError::StreamError(m) => prefixed("Audio stream error: ", m),
            RecorderError::UnsupportedFormat(m) => prefixed("Unsupported audio sample format: ", m),
            RecorderError::Other(m) => prefixed("Audio error: ", m),
        }
    }
}

/// What the streaming transcription reports to the user interface.
#[derive(Debug)]
pub enum StreamingTranscriptionEvent {
    Partial { text: String, chunk_index: usize },
    Final { text: String },
    Error { message: String },
}

} // verus!
