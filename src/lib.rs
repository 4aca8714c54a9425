//! Verified core of a push-to-talk dictation daemon: voice-activity smoothing,
//! speech-chunk assembly, the streaming transcription scheduler, overlap merging
//! of transcript fragments, the hotkey state machine and session decisions.
use vstd::prelude::*;

pub mod binding;
pub mod capture;
pub mod chars;
pub mod chunking;
pub mod cpu;
pub mod device;
pub mod events;
pub mod framing;
pub mod hotkey;
pub mod merge;
pub mod records;
pub mod rewrite;
pub mod samples;
pub mod session;
pub mod settings;
pub mod streaming;
pub mod text;
pub mod vad;

verus! {

} // verus!
