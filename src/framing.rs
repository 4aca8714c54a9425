//! Cutting a stream of sample blocks into whole 30 ms frames, keeping the
//! remainder for the next block.
use vstd::prelude::*;
use crate::samples::copy_range;

verus! {

/// Samples in one 30 ms frame at 16 kHz.
pub const FRAME_SAMPLES: usize = 480;

/// Samples waiting to complete a frame.
pub struct FrameAssembler<T> {
    pub pending: Vec<T>,
}

/// The frames cut from `s`: consecutive runs of `FRAME_SAMPLES`.
pub open spec fn frames_of<T>(s: Seq<T>, n: nat) -> Seq<Seq<T>> {
    Seq::new(n, |i: int| s.subrange(i * FRAME_SAMPLES, (i + 1) * FRAME_SAMPLES))
}

impl<T: Copy> FrameAssembler<T> {
    pub open spec fn wf(&self) -> bool {
        self.pending@.len() < FRAME_SAMPLES
    }

    pub fn new() -> (r: Self)
        ensures
            r.wf(),
            r.pending@.len() == 0,
    {
        FrameAssembler { pending: Vec::new() }
    }

    /// Adds a block and returns every frame it completes, in order; what is
    /// left over waits for the next block.
    pub fn push(&mut self, block: &[T]) -> (r: Vec<Vec<T>>)
        requires
            old(self).wf(),
        ensures
            final(self).wf(),
            ({
                let all = old(self).pending@ + block@;
                let n = all.len() / (FRAME_SAMPLES as nat);
                &&& r@.len() == n
                &&& forall|i: int| 0 <= i < n ==> #[trigger] r@[i]@ == frames_of(all, n)[i]
                &&& final(self).pending@ == all.subrange(n * FRAME_SAMPLES, all.len() as int)
            }),
    {
        let mut all = copy_range(self.pending.as_slice(), 0, self.pending.len());
        let mut k: usize = 0;
        let ghost base = all@;
        assert(self.pending@.subrange(0, self.pending@.len() as int) =~= self.pending@);
        while k < block.len()
            invariant
                k <= block@.len(),
                all@ == base + block@.subrange(0, k as int),
            decreases block@.len() - k,
        {
            all.push(block[k]);
            assert(block@.subrange(0, k + 1) =~= block@.subrange(0, k as int).push(block@[k as int]));
            k = k + 1;
        }
        assert(block@.subrange(0, block@.len() as int) =~= block@);
        let ghost n = all@.len() / (FRAME_SAMPLES as nat);
        let mut out: Vec<Vec<T>> = Vec::new();
        let mut start: usize = 0;
        while all.len() - start >= FRAME_SAMPLES
            invariant
                start <= all@.len(),
                start == out@.len() * FRAME_SAMPLES,
                out@.len() <= n,
                n == all@.len() / (FRAME_SAMPLES as nat),
                forall|i: int|
                    0 <= i < out@.len() ==> #[trigger] out@[i]@ == all@.subrange(
                        i * FRAME_SAMPLES,
                        (i + 1) * FRAME_SAMPLES,
                    ),
            decreases all@.len() - start,
        {
            let f = copy_range(all.as_slice(), start, start + FRAME_SAMPLES);
            out.push(f);
            start = start + FRAME_SAMPLES;
            assert(out@.len() <= n) by (nonlinear_arith)
                requires
                    start == out@.len() * 480,
                    start <= all@.len(),
                    n == all@.len() / 480,
            ;
        }
        assert(out@.len() == n) by (nonlinear_arith)
            requires
                start == out@.len() * 480,
                all@.len() - start < 480,
                start <= all@.len(),
                n == all@.len() / 480,
        ;
        self.pending = copy_range(all.as_slice(), start, all.len());
        out
    }

    /// At the end of a session: the remainder as one last frame, filled up
    /// with `fill`, or none if nothing is pending.
    pub fn finish(&mut self, fill: T) -> (r: Option<Vec<T>>)
        requires
            old(self).wf(),
        ensures
            final(self).pending@.len() == 0,
            old(self).pending@.len() == 0 ==> r is None,
            old(self).pending@.len() > 0 ==> (r matches Some(f) && f@ == old(self).pending@
                + Seq::new((FRAME_SAMPLES - old(self).pending@.len()) as nat, |i: int| fill)),
    {
        if self.pending.len() == 0 {
            return None;
        }
        let mut f = copy_range(self.pending.as_slice(), 0, self.pending.len());
        let ghost base = self.pending@;
        assert(base.subrange(0, base.len() as int) =~= base);
        let n = f.len();
        let mut i: usize = n;
        while i < FRAME_SAMPLES
            invariant
                n <= i <= FRAME_SAMPLES,
                n == base.len(),
                f@ == base + Seq::new((i - n) as nat, |k: int| fill),
            decreases FRAME_SAMPLES - i,
        {
            f.push(fill);
            assert(f@ =~= base + Seq::new((i + 1 - n) as nat, |k: int| fill));
            i = i + 1;
        }
        self.pending = Vec::new();
        Some(f)
    }
}

} // verus!
