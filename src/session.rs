//! Decisions of the session controller: which binding owns the recorder,
//! what happens to the microphone stream, and how the final transcript and
//! the rewriting instructions are chosen.
use vstd::prelude::*;
use crate::chars::{to_chars, from_chars};
use crate::samples::append_copy;
use crate::settings::OutputMode;

verus! {

/// Whether the recorder is idle or recording for a binding.
#[derive(Clone, Debug)]
pub enum RecordingState {
    Idle,
    Recording { binding_id: String },
}

/// Whether the input device stays open between sessions.
#[derive(Clone, Copy, Debug, PartialEq, Eq, Structural)]
pub enum MicrophoneMode {
    AlwaysOn,
    OnDemand,
}

/// What to do with the input stream when the microphone mode changes.
#[derive(Clone, Copy, Debug, PartialEq, Eq, Structural)]
pub enum StreamChange {
    Open,
    Close,
    Keep,
}

/// When the start chime plays relative to opening the recorder.
#[derive(Clone, Copy, Debug, PartialEq, Eq, Structural)]
pub enum ChimeTiming {
    /// The stream is already open: play at once.
    BeforeStart,
    /// Open the stream first, then play once recording has begun.
    AfterStart,
}

/// Profile whose instructions are never added ("None").
pub const NONE_PROFILE_ID: i64 = 1;

/// Streaming transcripts shorter than this many bytes are not trusted.
pub const MIN_STREAMING_TEXT_BYTES: usize = 3;

/// Recordings shorter than this (one second) are padded.
pub const MIN_RECORDING_SAMPLES: usize = 16000;

/// Length a short recording is padded to (1.25 s).
pub const PADDED_RECORDING_SAMPLES: usize = 20000;

/// Instructions used when neither the settings nor the profile give any.
pub const DEFAULT_INSTRUCTIONS: &'static str =
    "Improve grammar, clarity, and professionalism while maintaining the original meaning.";

/// Placed between the global and the profile's instructions.
pub const PROFILE_CONTEXT_SEPARATOR: &'static str = "\n\nAdditional context for this profile:\n";

impl RecordingState {
    pub open spec fn is_idle(&self) -> bool {
        self is Idle
    }

    pub open spec fn owner(&self) -> Seq<char> {
        match self {
            RecordingState::Recording { binding_id } => binding_id@,
            RecordingState::Idle => Seq::empty(),
        }
    }

    /// Claims the recorder for `binding_id`; fails when a session is running.
    pub fn try_start(&mut self, binding_id: &str) -> (r: bool)
        ensures
            r == old(self).is_idle(),
            r ==> !final(self).is_idle() && final(self).owner() == binding_id@,
            !r ==> *final(self) == *old(self),
    {
        match self {
            RecordingState::Idle => {
                *self = RecordingState::Recording { binding_id: from_chars(to_chars(binding_id).as_slice()) };
                true
            },
            RecordingState::Recording { .. } => false,
        }
    }

    /// Releases the recorder if `binding_id` holds it.
    pub fn try_stop(&mut self, binding_id: &str) -> (r: bool)
        ensures
            r == (!old(self).is_idle() && old(self).owner() == binding_id@),
            r ==> final(self).is_idle(),
            !r ==> *final(self) == *old(self),
    {
        let matches_owner = match self {
            RecordingState::Recording { binding_id: active } => {
                let a = to_chars(active.as_str());
                let b = to_chars(binding_id);
                same_chars(&a, &b)
            },
            RecordingState::Idle => false,
        };
        if matches_owner {
            *self = RecordingState::Idle;
        }
        matches_owner
    }

    /// Abandons any running session.
    pub fn cancel(&mut self) -> (r: bool)
        ensures
            r == !old(self).is_idle(),
            final(self).is_idle(),
    {
        let was_recording = match self {
            RecordingState::Recording { .. } => true,
            RecordingState::Idle => false,
        };
        *self = RecordingState::Idle;
        was_recording
    }
}

fn same_chars(a: &Vec<char>, b: &Vec<char>) -> (r: bool)
    ensures
        r == (a@ == b@),
{
    if a.len() != b.len() {
        return false;
    }
    let mut i: usize = 0;
    while i < a.len()
        invariant
            a@.len() == b@.len(),
            i <= a@.len(),
            forall|j: int| 0 <= j < i ==> a@[j] == b@[j],
        decreases a@.len() - i,
    {
        if a[i] != b[i] {
            return false;
        }
        i = i + 1;
    }
    assert(a@ =~= b@);
    true
}

impl MicrophoneMode {
    /// The change to the input stream when switching from `self` to `new_mode`:
    /// leaving always-on closes it if no session runs; entering always-on
    /// opens it.
    pub fn stream_change(&self, new_mode: MicrophoneMode, is_idle: bool) -> (r: StreamChange)
        ensures
            r == (if *self == MicrophoneMode::AlwaysOn && new_mode == MicrophoneMode::OnDemand
                && is_idle {
                StreamChange::Close
            } else if *self == MicrophoneMode::OnDemand && new_mode == MicrophoneMode::AlwaysOn {
                StreamChange::Open
            } else {
                StreamChange::Keep
            }),
    {
        match (self, new_mode) {
            (MicrophoneMode::AlwaysOn, MicrophoneMode::OnDemand) => if is_idle {
                StreamChange::Close
            } else {
                StreamChange::Keep
            },
            (MicrophoneMode::OnDemand, MicrophoneMode::AlwaysOn) => StreamChange::Open,
            _ => StreamChange::Keep,
        }
    }
}

/// A recording shorter than a second (but not empty) is padded with `zero`
/// to `PADDED_RECORDING_SAMPLES`; others are returned as they are.
pub fn pad_short_recording<T: Copy>(samples: Vec<T>, zero: T) -> (r: Vec<T>)
    ensures
        0 < samples@.len() < MIN_RECORDING_SAMPLES ==> r@ == samples@ + Seq::new(
            (PADDED_RECORDING_SAMPLES - samples@.len()) as nat,
            |i: int| zero,
        ),
        !(0 < samples@.len() < MIN_RECORDING_SAMPLES) ==> r@ == samples@,
{
    let n = samples.len();
    if n > 0 && n < MIN_RECORDING_SAMPLES {
        let mut out = samples;
        let ghost base = out@;
        let mut i: usize = n;
        while i < PADDED_RECORDING_SAMPLES
            invariant
                n <= i <= PADDED_RECORDING_SAMPLES,
                base.len() == n,
                out@ == base + Seq::new((i - n) as nat, |k: int| zero),
            decreases PADDED_RECORDING_SAMPLES - i,
        {
            out.push(zero);
            assert(out@ =~= base + Seq::new((i + 1 - n) as nat, |k: int| zero));
            i = i + 1;
        }
        out
    } else {
        samples
    }
}

/// The streaming transcript, when it can serve as the final text: it must
/// hold at least `MIN_STREAMING_TEXT_BYTES` bytes. Otherwise `None`, and the
/// whole recording is transcribed once more.
pub fn choose_final_text(latest: &str) -> (r: Option<String>)
    ensures
        r is Some <==> latest.len() >= MIN_STREAMING_TEXT_BYTES,
        r matches Some(s) ==> s@ == latest@,
{
    if latest.len() >= MIN_STREAMING_TEXT_BYTES {
        Some(from_chars(to_chars(latest).as_slice()))
    } else {
        None
    }
}

/// The profile whose instructions to look up: none for no profile and for
/// the "None" profile.
pub fn profile_to_consult(active_profile_id: Option<i64>) -> (r: Option<i64>)
    ensures
        r == (match active_profile_id {
            Some(id) => if id == NONE_PROFILE_ID {
                None
            } else {
                Some(id)
            },
            None => None,
        }),
{
    match active_profile_id {
        Some(id) => if id == NONE_PROFILE_ID {
            None
        } else {
            Some(id)
        },
        None => None,
    }
}

/// The rewriting instructions from the global setting and the profile's own:
/// the default when both are missing, either one alone, or the global ones
/// followed by the profile's after `PROFILE_CONTEXT_SEPARATOR`.
pub fn combine_instructions(global: &str, profile: Option<&str>) -> (r: String)
    ensures
        r@ == (match profile {
            None => if global@.len() == 0 {
                DEFAULT_INSTRUCTIONS@
            } else {
                global@
            },
            Some(p) => if global@.len() == 0 {
                p@
            } else {
                global@ + PROFILE_CONTEXT_SEPARATOR@ + p@
            },
        }),
{
    match profile {
        None => if global.is_empty() {
            from_chars(to_chars(DEFAULT_INSTRUCTIONS).as_slice())
        } else {
            from_chars(to_chars(global).as_slice())
        },
        Some(p) => if global.is_empty() {
            from_chars(to_chars(p).as_slice())
        } else {
            let mut out = to_chars(global);
            let sep = to_chars(PROFILE_CONTEXT_SEPARATOR);
            let tail = to_chars(p);
            append_copy(&mut out, sep.as_slice());
            append_copy(&mut out, tail.as_slice());
            from_chars(out.as_slice())
        },
    }
}

/// With an always-on microphone the chime plays at once; otherwise after
/// the stream has been opened, so that the microphone does not miss it.
pub fn start_chime_timing(always_on_microphone: bool) -> (r: ChimeTiming)
    ensures
        r == (if always_on_microphone {
            ChimeTiming::BeforeStart
        } else {
            ChimeTiming::AfterStart
        }),
{
    if always_on_microphone {
        ChimeTiming::BeforeStart
    } else {
        ChimeTiming::AfterStart
    }
}

/// Whether the transcript goes through the rewriting service.
pub fn wants_rewrite(mode: OutputMode) -> (r: bool)
    ensures
        r == (mode == OutputMode::Ghostwriter),
{
    match mode {
        OutputMode::Ghostwriter => true,
        OutputMode::Transcript => false,
    }
}

/// The text to paste and the rewritten text to record, given the transcript
/// and what the rewriting service returned (`None` when it was not asked).
/// A failed rewrite falls back to the transcript.
pub fn select_output(transcription: String, rewritten: Option<Result<String, String>>) -> (r: (
    String,
    Option<String>,
))
    ensures
        match rewritten {
            Some(Ok(g)) => r.0@ == g@ && r.1 == Some(g),
            _ => r.0@ == transcription@ && r.1 is None,
        },
{
    match rewritten {
        Some(Ok(g)) => (g.clone(), Some(g)),
        _ => (transcription, None),
    }
}

/// What the one fallback transcription of the whole recording yields: the
/// text to paste, or nothing (no paste, no history) when the call failed or
/// heard nothing.
pub fn final_from_fallback(result: Result<String, String>) -> (r: Option<String>)
    ensures
        r == (match result {
            Ok(t) => if t@.len() > 0 {
                Some(t)
            } else {
                None
            },
            Err(_) => None,
        }),
{
    match result {
        Ok(t) => if !t.as_str().is_empty() {
            Some(t)
        } else {
            None
        },
        Err(_) => None,
    }
}

} // verus!
