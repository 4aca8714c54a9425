//! Whether this processor can run the models that need AVX and AVX2.
use vstd::prelude::*;

verus! {

/// Processor features that decide which speech models can be loaded.
#[derive(Clone, Copy, Debug, PartialEq, Eq, Structural)]
pub struct CpuCapabilities {
    pub has_avx: bool,
    pub has_avx2: bool,
    pub supports_parakeet: bool,
}

/// The capabilities that follow from the detected features: the Parakeet
/// models need both AVX and AVX2. Processors other than x86-64 report
/// neither feature.
pub fn check_cpu_capabilities(has_avx: bool, has_avx2: bool) -> (r: CpuCapabilities)
    ensures
        r.has_avx == has_avx,
        r.has_avx2 == has_avx2,
        r.supports_parakeet == (has_avx && has_avx2),
{
    CpuCapabilities { has_avx, has_avx2, supports_parakeet: has_avx && has_avx2 }
}

/// Whether Parakeet models can be loaded given the detected features.
pub fn supports_parakeet(has_avx: bool, has_avx2: bool) -> (r: bool)
    ensures
        r == (has_avx && has_avx2),
{
    check_cpu_capabilities(has_avx, has_avx2).supports_parakeet
}

} // verus!
