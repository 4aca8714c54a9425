//! The streaming transcription scheduler. Speech chunks accumulate in a
//! buffer; once a second of new audio has arrived and no job is in flight, a
//! window of the most recent audio is handed out for transcription. Results
//! come back tagged with their job's generation; stale ones are dropped, and
//! results over a sliding window are merged onto the committed transcript.
use vstd::prelude::*;
use crate::merge::{merged, merge_overlapping};
use crate::samples::{append_copy, copy_range};

verus! {

/// Samples per second of audio.
pub const SAMPLE_RATE: usize = 16000;

/// New audio, in samples, that triggers a transcription (one second).
pub const NEW_AUDIO_TRIGGER: usize = 16000;

/// Length of the transcription window, in seconds.
pub const MAX_WINDOW_SECONDS: usize = 10;

/// Largest window handed to the recognizer, in samples.
pub const WINDOW_SAMPLES: usize = 160000;

/// Largest buffer kept: the window and a two-second margin.
pub const MAX_BUFFER_SAMPLES: usize = 192000;

/// A transcription the coordinator asks for.
pub struct AsrJob<T> {
    /// The trailing audio to transcribe.
    pub window: Vec<T>,
    /// The job's place in the order of jobs of this session.
    pub generation: u64,
    /// Whether the window is a strict suffix of the session's audio.
    pub is_windowed: bool,
    /// Earlier text to continue from, for windowed jobs.
    pub prompt: Option<String>,
}

/// State of one dictation session's streaming transcription.
pub struct StreamingState<T> {
    pub audio_buffer: Vec<T>,
    pub last_transcribed_len: usize,
    pub generation: u64,
    pub is_transcribing: bool,
    pub latest_text: String,
    pub committed_text: String,
    pub is_recording: bool,
    /// Generation of the last applied result of a job handed out in this
    /// session (a job left over from an earlier session may carry a
    /// generation not yet reached).
    pub applied: Ghost<Option<int>>,
}

/// The buffer after trimming it from the front to at most `MAX_BUFFER_SAMPLES`.
pub open spec fn trimmed<T>(b: Seq<T>) -> Seq<T> {
    if b.len() > MAX_BUFFER_SAMPLES {
        b.subrange(b.len() - MAX_BUFFER_SAMPLES, b.len() as int)
    } else {
        b
    }
}

/// The trailing window of at most `WINDOW_SAMPLES` samples.
pub open spec fn window_of<T>(b: Seq<T>) -> Seq<T> {
    if b.len() > WINDOW_SAMPLES {
        b.subrange(b.len() - WINDOW_SAMPLES, b.len() as int)
    } else {
        b
    }
}

impl<T: Copy> StreamingState<T> {
    pub open spec fn wf(&self) -> bool {
        &&& self.last_transcribed_len <= self.audio_buffer@.len()
        &&& (self.applied@ matches Some(g) ==> 0 <= g < self.generation)
    }

    /// A result of job `generation` arriving now is dropped as stale.
    pub open spec fn is_stale(&self, generation: u64) -> bool {
        generation + 1 < self.generation
    }

    /// Everything but the buffer bookkeeping is as in `o`.
    pub open spec fn same_text(&self, o: &Self) -> bool {
        &&& self.latest_text@ == o.latest_text@
        &&& self.committed_text@ == o.committed_text@
        &&& self.is_recording == o.is_recording
    }

    pub open spec fn is_fresh(&self) -> bool {
        &&& self.audio_buffer@.len() == 0
        &&& self.last_transcribed_len == 0
        &&& self.generation == 0
        &&& !self.is_transcribing
        &&& self.latest_text@.len() == 0
        &&& self.committed_text@.len() == 0
        &&& self.applied@ is None
    }

    /// An idle coordinator with no session.
    pub fn new() -> (r: Self)
        ensures
            r.wf(),
            r.is_fresh(),
            !r.is_recording,
    {
        StreamingState {
            audio_buffer: Vec::new(),
            last_transcribed_len: 0,
            generation: 0,
            is_transcribing: false,
            latest_text: String::new(),
            committed_text: String::new(),
            is_recording: false,
            applied: Ghost(None),
        }
    }

    /// Begins a session: clears the audio, both texts and all counters.
    pub fn start_recording(&mut self)
        ensures
            final(self).wf(),
            final(self).is_fresh(),
            final(self).is_recording,
    {
        self.audio_buffer = Vec::new();
        self.last_transcribed_len = 0;
        self.generation = 0;
        self.is_transcribing = false;
        self.latest_text = String::new();
        self.committed_text = String::new();
        self.is_recording = true;
        self.applied = Ghost(None);
    }

    /// Ends the session; a job in flight may still deliver its result.
    pub fn stop_recording(&mut self)
        ensures
            !final(self).is_recording,
            final(self).audio_buffer@ == old(self).audio_buffer@,
            final(self).last_transcribed_len == old(self).last_transcribed_len,
            final(self).generation == old(self).generation,
            final(self).is_transcribing == old(self).is_transcribing,
            final(self).latest_text@ == old(self).latest_text@,
            final(self).committed_text@ == old(self).committed_text@,
            final(self).applied@ == old(self).applied@,
            old(self).wf() ==> final(self).wf(),
    {
        self.is_recording = false;
    }

    /// The current best transcript.
    pub fn latest_text(&self) -> (r: String)
        ensures
            r@ == self.latest_text@,
    {
        self.latest_text.clone()
    }

    /// Takes a chunk of speech. Outside a session it is dropped. Otherwise it
    /// is appended, and when at least `NEW_AUDIO_TRIGGER` samples arrived since
    /// the last job and no job is in flight, a job is handed out: the buffer is
    /// trimmed to `MAX_BUFFER_SAMPLES`, the job gets its trailing window and
    /// the next generation, and it is windowed when the buffer is longer than
    /// the window; a windowed job carries the committed text as its prompt
    /// when there is one.
    pub fn on_speech_chunk(&mut self, samples: &[T]) -> (r: Option<AsrJob<T>>)
        requires
            old(self).wf(),
            old(self).generation < u64::MAX,
        ensures
            final(self).wf(),
            final(self).same_text(old(self)),
            final(self).applied@ == old(self).applied@,
            ({
                let o = *old(self);
                let n = *final(self);
                let buf = o.audio_buffer@ + samples@;
                if !o.is_recording {
                    &&& r is None
                    &&& n.audio_buffer@ == o.audio_buffer@
                    &&& n.last_transcribed_len == o.last_transcribed_len
                    &&& n.generation == o.generation
                    &&& n.is_transcribing == o.is_transcribing
                } else if buf.len() - o.last_transcribed_len < NEW_AUDIO_TRIGGER
                    || o.is_transcribing {
                    &&& r is None
                    &&& n.audio_buffer@ == buf
                    &&& n.last_transcribed_len == o.last_transcribed_len
                    &&& n.generation == o.generation
                    &&& n.is_transcribing == o.is_transcribing
                } else {
                    let b = trimmed(buf);
                    &&& n.audio_buffer@ == b
                    &&& n.last_transcribed_len == b.len()
                    &&& n.generation == o.generation + 1
                    &&& n.is_transcribing
                    &&& r matches Some(job) && {
                        &&& job.window@ == window_of(b)
                        &&& job.generation == o.generation
                        &&& job.is_windowed == (b.len() > WINDOW_SAMPLES)
                        &&& job.prompt == (if job.is_windowed && o.committed_text@.len() > 0 {
                            Some(o.committed_text)
                        } else {
                            None::<String>
                        })
                    }
                }
            }),
            r is Some ==> !old(self).is_transcribing && final(self).is_transcribing,
            old(self).is_transcribing ==> r is None,
    {
        if !self.is_recording {
            return None;
        }
        append_copy(&mut self.audio_buffer, samples);
        let new_samples = self.audio_buffer.len() - self.last_transcribed_len;
        if new_samples < NEW_AUDIO_TRIGGER {
            return None;
        }
        if self.is_transcribing {
            return None;
        }
        self.is_transcribing = true;
        self.last_transcribed_len = self.audio_buffer.len();
        let len = self.audio_buffer.len();
        if len > MAX_BUFFER_SAMPLES {
            let delta = len - MAX_BUFFER_SAMPLES;
            self.audio_buffer = copy_range(self.audio_buffer.as_slice(), delta, len);
            self.last_transcribed_len = self.last_transcribed_len - delta;
        }
        let len = self.audio_buffer.len();
        let is_windowed = len > WINDOW_SAMPLES;
        let start = if is_windowed {
            len - WINDOW_SAMPLES
        } else {
            0
        };
        let window = copy_range(self.audio_buffer.as_slice(), start, len);
        proof {
            if !is_windowed {
                assert(self.audio_buffer@.subrange(0, len as int) =~= self.audio_buffer@);
            }
        }
        let generation = self.generation;
        self.generation = self.generation + 1;
        let prompt = if is_windowed && !self.committed_text.as_str().is_empty() {
            Some(self.committed_text.clone())
        } else {
            None
        };
        Some(AsrJob { window, generation, is_windowed, prompt })
    }

    /// Takes the text that job `generation` produced. A stale result (an
    /// older job than the one before the newest) changes nothing. An empty
    /// result frees the job slot. Otherwise the result becomes the latest
    /// text, directly for a job over the whole buffer; for a windowed job the
    /// previous latest text (when non-empty) is first committed, and the
    /// result is merged onto the committed text. The text to display is
    /// returned.
    pub fn on_transcription(&mut self, generation: u64, is_windowed: bool, text: &str) -> (r:
        Option<String>)
        requires
            old(self).wf(),
        ensures
            final(self).wf(),
            final(self).audio_buffer@ == old(self).audio_buffer@,
            final(self).last_transcribed_len == old(self).last_transcribed_len,
            final(self).generation == old(self).generation,
            final(self).is_recording == old(self).is_recording,
            ({
                let o = *old(self);
                let n = *final(self);
                if o.is_stale(generation) {
                    &&& r is None
                    &&& n.is_transcribing == o.is_transcribing
                    &&& n.latest_text@ == o.latest_text@
                    &&& n.committed_text@ == o.committed_text@
                    &&& n.applied@ == o.applied@
                } else if text@.len() == 0 {
                    &&& r is None
                    &&& !n.is_transcribing
                    &&& n.latest_text@ == o.latest_text@
                    &&& n.committed_text@ == o.committed_text@
                    &&& n.applied@ == o.applied@
                } else {
                    let committed = if is_windowed && o.latest_text@.len() > 0 {
                        o.latest_text@
                    } else {
                        o.committed_text@
                    };
                    let shown = if is_windowed {
                        merged(committed, text@)
                    } else {
                        text@
                    };
                    &&& !n.is_transcribing
                    &&& n.committed_text@ == committed
                    &&& n.latest_text@ == shown
                    &&& r matches Some(s) && s@ == shown
                    &&& n.applied@ == (if generation < o.generation {
                        Some(generation as int)
                    } else {
                        o.applied@
                    })
                }
            }),
    {
        if generation as u128 + 1 < self.generation as u128 {
            return None;
        }
        if text.is_empty() {
            self.is_transcribing = false;
            return None;
        }
        let shown = if is_windowed {
            let prev = self.latest_text.clone();
            if !prev.as_str().is_empty() {
                self.committed_text = prev;
            }
            merge_overlapping(self.committed_text.as_str(), text)
        } else {
            text.to_string()
        };
        self.latest_text = shown.clone();
        self.is_transcribing = false;
        if generation < self.generation {
            self.applied = Ghost(Some(generation as int));
        }
        Some(shown)
    }
}

/// Within a session, once the result of job `j` has been applied, a result
/// of any earlier job `i < j` is stale: it can no longer replace the text.
pub proof fn lemma_older_result_never_overwrites<T: Copy>(
    s: StreamingState<T>,
    i: u64,
    j: int,
)
    requires
        s.wf(),
        s.applied@ == Some(j),
        i < j,
    ensures
        s.is_stale(i),
{
}

} // verus!
