//! Per-frame work of the capture worker: frames pass through the smoothed
//! detector, kept audio goes to the session buffer and to the current speech
//! chunk, and the chunk is handed on at a segment boundary or once it holds
//! a second of audio.
use vstd::prelude::*;
use crate::samples::append_copy;
use crate::vad::{
    SmoothedVad, VadCounters, VadFrame, VadSegmentEvent, concat, is_onset, keeps, next_counters,
    ring_push,
};

verus! {

/// A chunk this long (one second) is handed on even without a pause.
pub const STREAMING_CHUNK_SAMPLES: usize = 16000;

/// The capture worker's session state.
pub struct CaptureSession<T> {
    pub vad: SmoothedVad<T>,
    pub recording: bool,
    /// All audio kept in this session.
    pub processed_samples: Vec<T>,
    /// Audio kept since the last chunk was handed on.
    pub segment_buffer: Vec<T>,
}

/// The audio kept for a frame the detector judged.
pub open spec fn kept<T>(f: VadFrame<T>) -> Seq<T> {
    match f {
        VadFrame::Speech(c) => c@,
        VadFrame::Noise => Seq::empty(),
    }
}

/// Moves the contents out of `v`, leaving it empty.
fn take_vec<T>(v: &mut Vec<T>) -> (r: Vec<T>)
    ensures
        r@ == old(v)@,
        final(v)@.len() == 0,
{
    let mut out: Vec<T> = Vec::new();
    std::mem::swap(v, &mut out);
    out
}

impl<T: Copy> CaptureSession<T> {
    pub open spec fn wf(&self) -> bool {
        self.vad.wf()
    }

    pub fn new(vad: SmoothedVad<T>) -> (r: Self)
        requires
            vad.wf(),
        ensures
            r.wf(),
            !r.recording,
            r.processed_samples@.len() == 0,
            r.segment_buffer@.len() == 0,
            r.vad == vad,
    {
        CaptureSession {
            vad,
            recording: false,
            processed_samples: Vec::new(),
            segment_buffer: Vec::new(),
        }
    }

    /// Starts a session: buffers and detector are cleared.
    pub fn start(&mut self)
        requires
            old(self).wf(),
        ensures
            final(self).wf(),
            final(self).recording,
            final(self).processed_samples@.len() == 0,
            final(self).segment_buffer@.len() == 0,
            final(self).vad.is_reset(),
            final(self).vad.same_config(&old(self).vad),
    {
        self.processed_samples = Vec::new();
        self.segment_buffer = Vec::new();
        self.vad.reset();
        self.recording = true;
    }

    /// Ends the session: hands on what is left of the current chunk (if any)
    /// and returns it with all audio the session kept.
    pub fn stop(&mut self) -> (r: (Option<Vec<T>>, Vec<T>))
        ensures
            !final(self).recording,
            final(self).processed_samples@.len() == 0,
            final(self).segment_buffer@.len() == 0,
            final(self).vad == old(self).vad,
            r.1@ == old(self).processed_samples@,
            old(self).segment_buffer@.len() == 0 ==> r.0 is None,
            old(self).segment_buffer@.len() > 0 ==> (r.0 matches Some(c) && c@
                == old(self).segment_buffer@),
    {
        self.recording = false;
        let all = take_vec(&mut self.processed_samples);
        let rest = take_vec(&mut self.segment_buffer);
        if rest.len() > 0 {
            (Some(rest), all)
        } else {
            (None, all)
        }
    }

    /// Handles one frame with the inner detector's decision for it. Outside
    /// a session the frame is dropped. Otherwise kept audio is appended to
    /// both buffers; then the chunk is handed on if a segment boundary was
    /// reported and the chunk is non-empty, or, with no boundary, if it
    /// holds at least `STREAMING_CHUNK_SAMPLES` samples.
    pub fn process_frame(&mut self, frame: &[T], is_voice: bool) -> (r: Option<Vec<T>>)
        requires
            old(self).wf(),
        ensures
            final(self).wf(),
            final(self).recording == old(self).recording,
            final(self).vad.same_config(&old(self).vad),
            !old(self).recording ==> r is None && *final(self) == *old(self),
            old(self).recording ==> ({
                let v = old(self).vad;
                let c = v.counters();
                let after = next_counters(c, v.hangover_frames, v.onset_frames, is_voice);
                let kept = if !keeps(c, v.onset_frames, is_voice) {
                    Seq::empty()
                } else if is_onset(c, v.onset_frames, is_voice) {
                    concat(final(self).vad.buffer())
                } else {
                    frame@
                };
                let seg = old(self).segment_buffer@ + kept;
                let complete = v.boundary_at(after);
                &&& final(self).vad.buffer() == ring_push(
                    v.buffer(),
                    frame@,
                    (v.prefill_frames + 1) as nat,
                )
                &&& final(self).vad.counters() == (if complete {
                    VadCounters { silence: 0, speech: 0, ..after }
                } else {
                    after
                })
                &&& final(self).processed_samples@ == old(self).processed_samples@ + kept
                &&& (r is Some <==> (complete && seg.len() > 0) || (!complete && seg.len()
                    >= STREAMING_CHUNK_SAMPLES))
                &&& (r matches Some(ch) ==> ch@ == seg && final(self).segment_buffer@.len() == 0)
                &&& (r is None ==> final(self).segment_buffer@ == seg)
            }),
            r matches Some(ch) ==> ch@.len() > 0,
    {
        if !self.recording {
            return None;
        }
        let ghost old_processed = self.processed_samples@;
        let ghost old_segment = self.segment_buffer@;
        let out = self.vad.push_frame(frame, is_voice);
        match &out {
            VadFrame::Speech(buf) => {
                append_copy(&mut self.processed_samples, buf.as_slice());
                append_copy(&mut self.segment_buffer, buf.as_slice());
            },
            VadFrame::Noise => {},
        }
        let boundary = self.vad.check_segment_boundary();
        let complete = matches!(boundary, VadSegmentEvent::SegmentComplete);
        if complete && self.segment_buffer.len() > 0 {
            return Some(take_vec(&mut self.segment_buffer));
        }
        if !complete && self.segment_buffer.len() >= STREAMING_CHUNK_SAMPLES {
            return Some(take_vec(&mut self.segment_buffer));
        }
        None
    }
}

} // verus!
