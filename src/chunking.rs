//! Fixed-size chunking of streamed audio: once 2.5 s have gathered, a chunk
//! is cut that repeats the last 300 ms of the previous one.
use vstd::prelude::*;
use crate::samples::{append_copy, copy_range};

verus! {

/// Samples that make a chunk (2.5 s).
pub const MIN_CHUNK_SAMPLES: usize = 40000;

/// Samples repeated at the start of the next chunk (300 ms).
pub const OVERLAP_SAMPLES: usize = 4800;

/// Fewest samples worth a final chunk (0.5 s).
pub const MIN_FLUSH_SAMPLES: usize = 8000;

/// Audio waiting to be cut into chunks.
pub struct StreamingBuffer<T> {
    pub buffer: Vec<T>,
    pub overlap: Vec<T>,
    pub chunk_index: usize,
}

/// The last `OVERLAP_SAMPLES` samples of `b`, or all of it.
pub open spec fn tail_of<T>(b: Seq<T>) -> Seq<T> {
    if b.len() > OVERLAP_SAMPLES {
        b.subrange(b.len() - OVERLAP_SAMPLES, b.len() as int)
    } else {
        b
    }
}

impl<T: Copy> StreamingBuffer<T> {
    pub fn new() -> (r: Self)
        ensures
            r.buffer@.len() == 0,
            r.overlap@.len() == 0,
            r.chunk_index == 0,
    {
        StreamingBuffer { buffer: Vec::new(), overlap: Vec::new(), chunk_index: 0 }
    }

    /// Adds samples. Once `MIN_CHUNK_SAMPLES` have gathered, returns the
    /// overlap of the previous chunk followed by them, with the chunk's
    /// number; their tail becomes the next overlap.
    pub fn add_segment(&mut self, samples: Vec<T>) -> (r: Option<(Vec<T>, usize)>)
        requires
            old(self).chunk_index < usize::MAX,
        ensures
            ({
                let b = old(self).buffer@ + samples@;
                if b.len() >= MIN_CHUNK_SAMPLES {
                    &&& r matches Some((chunk, idx)) && chunk@ == old(self).overlap@ + b && idx
                        == old(self).chunk_index
                    &&& final(self).buffer@.len() == 0
                    &&& final(self).overlap@ == tail_of(b)
                    &&& final(self).chunk_index == old(self).chunk_index + 1
                } else {
                    &&& r is None
                    &&& final(self).buffer@ == b
                    &&& final(self).overlap@ == old(self).overlap@
                    &&& final(self).chunk_index == old(self).chunk_index
                }
            }),
    {
        append_copy(&mut self.buffer, samples.as_slice());
        if self.buffer.len() >= MIN_CHUNK_SAMPLES {
            let mut chunk: Vec<T> = Vec::new();
            append_copy(&mut chunk, self.overlap.as_slice());
            append_copy(&mut chunk, self.buffer.as_slice());
            let n = self.buffer.len();
            let start = if n > OVERLAP_SAMPLES {
                n - OVERLAP_SAMPLES
            } else {
                0
            };
            self.overlap = copy_range(self.buffer.as_slice(), start, n);
            proof {
                if n <= OVERLAP_SAMPLES {
                    assert(self.buffer@.subrange(0, n as int) =~= self.buffer@);
                }
            }
            let index = self.chunk_index;
            self.chunk_index = self.chunk_index + 1;
            self.buffer = Vec::new();
            Some((chunk, index))
        } else {
            None
        }
    }

    /// At the end of a recording: the overlap and the remaining samples as a
    /// last chunk, unless fewer than `MIN_FLUSH_SAMPLES` remain.
    pub fn flush(&mut self) -> (r: Option<(Vec<T>, usize)>)
        requires
            old(self).chunk_index < usize::MAX,
        ensures
            old(self).buffer@.len() < MIN_FLUSH_SAMPLES ==> r is None && *final(self) == *old(
                self,
            ),
            old(self).buffer@.len() >= MIN_FLUSH_SAMPLES ==> {
                &&& r matches Some((chunk, idx)) && chunk@ == old(self).overlap@ + old(
                    self,
                ).buffer@ && idx == old(self).chunk_index
                &&& final(self).buffer@.len() == 0
                &&& final(self).overlap@.len() == 0
                &&& final(self).chunk_index == old(self).chunk_index + 1
            },
    {
        if self.buffer.len() < MIN_FLUSH_SAMPLES {
            return None;
        }
        let mut chunk: Vec<T> = Vec::new();
        append_copy(&mut chunk, self.overlap.as_slice());
        append_copy(&mut chunk, self.buffer.as_slice());
        let index = self.chunk_index;
        self.chunk_index = self.chunk_index + 1;
        self.buffer = Vec::new();
        self.overlap = Vec::new();
        Some((chunk, index))
    }

    /// Empties the buffer for a new recording.
    pub fn reset(&mut self)
        ensures
            final(self).buffer@.len() == 0,
            final(self).overlap@.len() == 0,
            final(self).chunk_index == 0,
    {
        self.buffer = Vec::new();
        self.overlap = Vec::new();
        self.chunk_index = 0;
    }

    pub fn current_chunk_index(&self) -> (r: usize)
        ensures
            r == self.chunk_index,
    {
        self.chunk_index
    }
}

} // verus!
