//! Smoothing of a per-frame voice decision: onset debouncing, hangover,
//! pre-roll of buffered frames, and detection of segment boundaries (a long
//! pause after enough speech).
use vstd::prelude::*;
use crate::samples::append_copy;
use std::collections::VecDeque;

verus! {

/// Silent frames that close a segment (1.5 s of 30 ms frames).
pub const SEGMENT_BOUNDARY_THRESHOLD: usize = 50;

/// Speech frames a segment needs before a pause may close it (about 2 s).
pub const MIN_SEGMENT_FRAMES: usize = 67;

/// What the smoothed detector makes of one frame.
pub enum VadFrame<T> {
    /// Audio to keep: pre-roll and the current frame at onset, else the frame.
    Speech(Vec<T>),
    /// Silence or noise.
    Noise,
}

impl<T> VadFrame<T> {
    pub fn is_speech(&self) -> (r: bool)
        ensures
            r == (self is Speech),
    {
        match self {
            VadFrame::Speech(_) => true,
            VadFrame::Noise => false,
        }
    }
}

/// Result of asking whether a segment has ended.
#[derive(Clone, Copy, Debug, PartialEq, Eq, Structural)]
pub enum VadSegmentEvent {
    /// Speech goes on.
    SpeechContinue,
    /// A long enough pause followed enough speech: the segment is complete.
    SegmentComplete,
    /// No speech at the moment.
    Silence,
}

/// The concatenation of a sequence of frames.
pub open spec fn concat<T>(frames: Seq<Seq<T>>) -> Seq<T>
    decreases frames.len(),
{
    if frames.len() == 0 {
        Seq::empty()
    } else {
        concat(frames.drop_last()) + frames.last()
    }
}

/// Counter increment that stops at the largest value.
pub open spec fn bump(x: usize) -> usize {
    if x < usize::MAX {
        (x + 1) as usize
    } else {
        x
    }
}

/// The pre-roll buffer after `f` arrives: the last `cap` frames seen.
pub open spec fn ring_push<T>(buf: Seq<Seq<T>>, f: Seq<T>, cap: nat) -> Seq<Seq<T>> {
    let b = buf.push(f);
    if b.len() > cap {
        b.subrange(b.len() - cap, b.len() as int)
    } else {
        b
    }
}

/// The detector's mode and counters.
#[derive(Clone, Copy, Debug, PartialEq, Eq, Structural)]
pub struct VadCounters {
    pub in_speech: bool,
    pub hangover: usize,
    pub onset: usize,
    pub silence: usize,
    pub speech: usize,
}

/// A voiced frame in silence completes the onset.
pub open spec fn is_onset(c: VadCounters, onset_frames: usize, is_voice: bool) -> bool {
    !c.in_speech && is_voice && c.onset + 1 >= onset_frames
}

/// The frame (or, at onset, the pre-roll) is kept as speech.
pub open spec fn keeps(c: VadCounters, onset_frames: usize, is_voice: bool) -> bool {
    is_onset(c, onset_frames, is_voice) || (c.in_speech && (is_voice || c.hangover > 0))
}

/// The counters after one frame.
pub open spec fn next_counters(
    c: VadCounters,
    hangover_frames: usize,
    onset_frames: usize,
    is_voice: bool,
) -> VadCounters {
    if !c.in_speech && is_voice {
        if c.onset + 1 >= onset_frames {
            VadCounters {
                in_speech: true,
                hangover: hangover_frames,
                onset: 0,
                silence: 0,
                speech: c.speech,
            }
        } else {
            VadCounters {
                in_speech: false,
                hangover: c.hangover,
                onset: (c.onset + 1) as usize,
                silence: bump(c.silence),
                speech: c.speech,
            }
        }
    } else if c.in_speech && is_voice {
        VadCounters {
            in_speech: true,
            hangover: hangover_frames,
            onset: c.onset,
            silence: 0,
            speech: bump(c.speech),
        }
    } else if c.in_speech && c.hangover > 0 {
        VadCounters {
            in_speech: true,
            hangover: (c.hangover - 1) as usize,
            onset: c.onset,
            silence: c.silence,
            speech: bump(c.speech),
        }
    } else if c.in_speech {
        VadCounters {
            in_speech: false,
            hangover: c.hangover,
            onset: c.onset,
            silence: bump(c.silence),
            speech: c.speech,
        }
    } else {
        VadCounters {
            in_speech: false,
            hangover: c.hangover,
            onset: 0,
            silence: bump(c.silence),
            speech: c.speech,
        }
    }
}

/// Voice-activity smoothing over a boolean per-frame detector.
pub struct SmoothedVad<T> {
    pub prefill_frames: usize,
    pub hangover_frames: usize,
    pub onset_frames: usize,
    /// The most recent frames, at most `prefill_frames + 1` of them.
    pub frame_buffer: VecDeque<Vec<T>>,
    pub hangover_counter: usize,
    pub onset_counter: usize,
    pub in_speech: bool,
    pub silence_frames: usize,
    pub segment_boundary_threshold: usize,
    pub speech_frames_since_segment: usize,
    pub min_segment_frames: usize,
}

pub open spec fn frames_view<T>(v: Seq<Vec<T>>) -> Seq<Seq<T>> {
    v.map_values(|f: Vec<T>| f@)
}

impl<T: Copy> SmoothedVad<T> {
    pub open spec fn wf(&self) -> bool {
        &&& self.prefill_frames < usize::MAX
        &&& self.frame_buffer@.len() <= self.prefill_frames + 1
        &&& (self.onset_counter == 0 || self.onset_counter < self.onset_frames)
    }

    pub open spec fn counters(&self) -> VadCounters {
        VadCounters {
            in_speech: self.in_speech,
            hangover: self.hangover_counter,
            onset: self.onset_counter,
            silence: self.silence_frames,
            speech: self.speech_frames_since_segment,
        }
    }

    /// A segment boundary is reported for these counters.
    pub open spec fn boundary_at(&self, c: VadCounters) -> bool {
        c.silence >= self.segment_boundary_threshold && c.speech >= self.min_segment_frames
    }

    pub open spec fn buffer(&self) -> Seq<Seq<T>> {
        frames_view(self.frame_buffer@)
    }

    /// The configured counters' limits are kept; everything else is cleared.
    pub open spec fn is_reset(&self) -> bool {
        &&& self.frame_buffer@.len() == 0
        &&& self.hangover_counter == 0
        &&& self.onset_counter == 0
        &&& !self.in_speech
        &&& self.silence_frames == 0
        &&& self.speech_frames_since_segment == 0
    }

    pub open spec fn same_config(&self, o: &Self) -> bool {
        &&& self.prefill_frames == o.prefill_frames
        &&& self.hangover_frames == o.hangover_frames
        &&& self.onset_frames == o.onset_frames
        &&& self.segment_boundary_threshold == o.segment_boundary_threshold
        &&& self.min_segment_frames == o.min_segment_frames
    }

    /// A detector in silence with empty buffers; segments close after
    /// `SEGMENT_BOUNDARY_THRESHOLD` silent frames following at least
    /// `MIN_SEGMENT_FRAMES` speech frames.
    pub fn new(prefill_frames: usize, hangover_frames: usize, onset_frames: usize) -> (r: Self)
        requires
            prefill_frames < usize::MAX,
        ensures
            r.wf(),
            r.is_reset(),
            r.prefill_frames == prefill_frames,
            r.hangover_frames == hangover_frames,
            r.onset_frames == onset_frames,
            r.segment_boundary_threshold == SEGMENT_BOUNDARY_THRESHOLD,
            r.min_segment_frames == MIN_SEGMENT_FRAMES,
    {
        SmoothedVad {
            prefill_frames,
            hangover_frames,
            onset_frames,
            frame_buffer: VecDeque::new(),
            hangover_counter: 0,
            onset_counter: 0,
            in_speech: false,
            silence_frames: 0,
            segment_boundary_threshold: SEGMENT_BOUNDARY_THRESHOLD,
            speech_frames_since_segment: 0,
            min_segment_frames: MIN_SEGMENT_FRAMES,
        }
    }

    /// Clears all counters and the pre-roll buffer.
    pub fn reset(&mut self)
        ensures
            final(self).is_reset(),
            final(self).same_config(old(self)),
            old(self).wf() ==> final(self).wf(),
    {
        self.frame_buffer = VecDeque::new();
        self.hangover_counter = 0;
        self.onset_counter = 0;
        self.in_speech = false;
        self.silence_frames = 0;
        self.speech_frames_since_segment = 0;
    }

    /// Feeds one frame together with the inner detector's decision for it.
    ///
    /// In silence, a voiced frame counts towards onset; once `onset_frames`
    /// voiced frames came in a row the detector enters speech and hands out
    /// the buffered pre-roll (the current frame last). In speech, a voiced
    /// frame re-arms the hangover; an unvoiced one spends it, and when none
    /// is left the detector returns to silence. Every frame kept in speech,
    /// hangover included, is handed out.
    pub fn push_frame(&mut self, frame: &[T], is_voice: bool) -> (r: VadFrame<T>)
        requires
            old(self).wf(),
        ensures
            final(self).wf(),
            final(self).same_config(old(self)),
            final(self).buffer() == ring_push(
                old(self).buffer(),
                frame@,
                (old(self).prefill_frames + 1) as nat,
            ),
            final(self).counters() == next_counters(
                old(self).counters(),
                old(self).hangover_frames,
                old(self).onset_frames,
                is_voice,
            ),
            r is Speech <==> keeps(old(self).counters(), old(self).onset_frames, is_voice),
            r matches VadFrame::Speech(c) ==> c@ == (if is_onset(
                old(self).counters(),
                old(self).onset_frames,
                is_voice,
            ) {
                concat(final(self).buffer())
            } else {
                frame@
            }),
            frame@.len() > 0 ==> (r matches VadFrame::Speech(c) ==> c@.len() > 0),
    {
        let mut kept: Vec<T> = Vec::new();
        append_copy(&mut kept, frame);
        let ghost old_buf = self.buffer();
        let ghost cap = (self.prefill_frames + 1) as nat;
        self.frame_buffer.push_back(kept);
        assert(self.buffer() =~= old_buf.push(frame@));
        if self.frame_buffer.len() > self.prefill_frames + 1 {
            let ghost b = self.buffer();
            self.frame_buffer.pop_front();
            assert(self.buffer() =~= b.subrange(b.len() - cap, b.len() as int));
        }
        let ghost buf = self.buffer();
        assert(buf.len() > 0 && buf.last() == frame@);
        if !self.in_speech && is_voice {
            self.onset_counter = self.onset_counter + 1;
            if self.onset_counter >= self.onset_frames {
                self.in_speech = true;
                self.hangover_counter = self.hangover_frames;
                self.onset_counter = 0;
                self.silence_frames = 0;
                let out = self.collect_buffer();
                proof {
                    lemma_concat_last_len(buf);
                }
                VadFrame::Speech(out)
            } else {
                self.silence_frames = saturating_inc(self.silence_frames);
                VadFrame::Noise
            }
        } else if self.in_speech && is_voice {
            self.hangover_counter = self.hangover_frames;
            self.silence_frames = 0;
            self.speech_frames_since_segment = saturating_inc(self.speech_frames_since_segment);
            let mut out: Vec<T> = Vec::new();
            append_copy(&mut out, frame);
            VadFrame::Speech(out)
        } else if self.in_speech {
            if self.hangover_counter > 0 {
                self.hangover_counter = self.hangover_counter - 1;
                self.speech_frames_since_segment = saturating_inc(
                    self.speech_frames_since_segment,
                );
                let mut out: Vec<T> = Vec::new();
                append_copy(&mut out, frame);
                VadFrame::Speech(out)
            } else {
                self.in_speech = false;
                self.silence_frames = saturating_inc(self.silence_frames);
                VadFrame::Noise
            }
        } else {
            self.onset_counter = 0;
            self.silence_frames = saturating_inc(self.silence_frames);
            VadFrame::Noise
        }
    }

    /// All buffered frames, oldest first, as one run of samples.
    fn collect_buffer(&self) -> (r: Vec<T>)
        requires
            self.wf(),
        ensures
            r@ == concat(self.buffer()),
    {
        let mut out: Vec<T> = Vec::new();
        let mut i: usize = 0;
        while i < self.frame_buffer.len()
            invariant
                self.wf(),
                i <= self.frame_buffer@.len(),
                out@ == concat(self.buffer().subrange(0, i as int)),
            decreases self.frame_buffer@.len() - i,
        {
            let ghost pre = self.buffer().subrange(0, i as int);
            let ghost next = self.buffer().subrange(0, i + 1);
            assert(next.drop_last() =~= pre);
            append_copy(&mut out, self.frame_buffer[i].as_slice());
            i = i + 1;
        }
        assert(self.buffer().subrange(0, self.frame_buffer@.len() as int) =~= self.buffer());
        out
    }

    /// Reports whether a segment has just ended: after at least
    /// `segment_boundary_threshold` silent frames following at least
    /// `min_segment_frames` speech frames. Reporting it starts a new segment.
    pub fn check_segment_boundary(&mut self) -> (r: VadSegmentEvent)
        ensures
            final(self).same_config(old(self)),
            final(self).frame_buffer == old(self).frame_buffer,
            final(self).in_speech == old(self).in_speech,
            final(self).onset_counter == old(self).onset_counter,
            final(self).hangover_counter == old(self).hangover_counter,
            ({
                let o = *old(self);
                let n = *final(self);
                if o.boundary_at(o.counters()) {
                    &&& r == VadSegmentEvent::SegmentComplete
                    &&& n.silence_frames == 0
                    &&& n.speech_frames_since_segment == 0
                } else {
                    &&& r == (if o.in_speech {
                        VadSegmentEvent::SpeechContinue
                    } else {
                        VadSegmentEvent::Silence
                    })
                    &&& n.silence_frames == o.silence_frames
                    &&& n.speech_frames_since_segment == o.speech_frames_since_segment
                }
            }),
    {
        if self.silence_frames >= self.segment_boundary_threshold
            && self.speech_frames_since_segment >= self.min_segment_frames {
            self.speech_frames_since_segment = 0;
            self.silence_frames = 0;
            VadSegmentEvent::SegmentComplete
        } else if self.in_speech {
            VadSegmentEvent::SpeechContinue
        } else {
            VadSegmentEvent::Silence
        }
    }
}

fn saturating_inc(x: usize) -> (r: usize)
    ensures
        r == bump(x),
{
    if x < usize::MAX {
        x + 1
    } else {
        x
    }
}

/// The concatenation is at least as long as its last frame.
pub proof fn lemma_concat_last_len<T>(frames: Seq<Seq<T>>)
    requires
        frames.len() > 0,
    ensures
        concat(frames).len() >= frames.last().len(),
{
}

/// The counters after `k` unvoiced frames starting from `c`.
pub open spec fn silent_run(c: VadCounters, hangover_frames: usize, onset_frames: usize, k: nat) -> VadCounters
    decreases k,
{
    if k == 0 {
        c
    } else {
        next_counters(silent_run(c, hangover_frames, onset_frames, (k - 1) as nat), hangover_frames, onset_frames, false)
    }
}

proof fn lemma_silent_run(c: VadCounters, hangover_frames: usize, onset_frames: usize, k: nat)
    requires
        c.in_speech,
        c.hangover == 0,
        c.silence == 0,
        k < usize::MAX,
    ensures
        k > 0 ==> !silent_run(c, hangover_frames, onset_frames, k).in_speech,
        silent_run(c, hangover_frames, onset_frames, k).silence == k,
        silent_run(c, hangover_frames, onset_frames, k).speech == c.speech,
    decreases k,
{
    if k > 0 {
        lemma_silent_run(c, hangover_frames, onset_frames, (k - 1) as nat);
    }
}

/// A pause closes a long enough segment exactly when it reaches the
/// threshold: once speech has been counted for at least `min_segment_frames`
/// frames and the hangover is spent, the `k`-th unvoiced frame that follows
/// brings a segment boundary if and only if `k` has reached
/// `segment_boundary_threshold`. Before that, no boundary is reported, so
/// the checks in between leave the counters alone.
pub proof fn lemma_pause_closes_segment<T: Copy>(v: SmoothedVad<T>, k: nat)
    requires
        v.in_speech,
        v.hangover_counter == 0,
        v.silence_frames == 0,
        v.speech_frames_since_segment >= v.min_segment_frames,
        k < usize::MAX,
    ensures
        v.boundary_at(silent_run(v.counters(), v.hangover_frames, v.onset_frames, k)) == (k
            >= v.segment_boundary_threshold),
{
    lemma_silent_run(v.counters(), v.hangover_frames, v.onset_frames, k);
}

} // verus!
