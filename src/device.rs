//! Decisions made while opening the input device: which stream
//! configuration to prefer, which sample formats are accepted, and what the
//! worker's start-up handshake means.
use vstd::prelude::*;
use crate::chars::{chars_eq, from_chars, to_chars};
use crate::events::RecorderError;
use crate::streaming::SAMPLE_RATE;

verus! {

/// Sample formats an input device may deliver.
#[derive(Clone, Copy, Debug, PartialEq, Eq, Structural)]
pub enum SampleFormat {
    I8,
    I16,
    I32,
    I64,
    U8,
    U16,
    U32,
    U64,
    F32,
    F64,
}

/// A supported range of sample rates, bounds included.
#[derive(Clone, Copy, Debug, PartialEq, Eq, Structural)]
pub struct RateRange {
    pub min: u32,
    pub max: u32,
}

pub open spec fn format_name(f: SampleFormat) -> Seq<char> {
    match f {
        SampleFormat::I8 => "I8"@,
        SampleFormat::I16 => "I16"@,
        SampleFormat::I32 => "I32"@,
        SampleFormat::I64 => "I64"@,
        SampleFormat::U8 => "U8"@,
        SampleFormat::U16 => "U16"@,
        SampleFormat::U32 => "U32"@,
        SampleFormat::U64 => "U64"@,
        SampleFormat::F32 => "F32"@,
        SampleFormat::F64 => "F64"@,
    }
}

/// The formats the capture path converts: U8, I8, I16, I32 and F32.
pub open spec fn is_accepted(f: SampleFormat) -> bool {
    f == SampleFormat::U8 || f == SampleFormat::I8 || f == SampleFormat::I16 || f
        == SampleFormat::I32 || f == SampleFormat::F32
}

impl SampleFormat {
    /// The format's name, as reported in errors.
    pub fn name(&self) -> (r: &'static str)
        ensures
            r@ == format_name(*self),
    {
        match self {
            SampleFormat::I8 => "I8",
            SampleFormat::I16 => "I16",
            SampleFormat::I32 => "I32",
            SampleFormat::I64 => "I64",
            SampleFormat::U8 => "U8",
            SampleFormat::U16 => "U16",
            SampleFormat::U32 => "U32",
            SampleFormat::U64 => "U64",
            SampleFormat::F32 => "F32",
            SampleFormat::F64 => "F64",
        }
    }
}

/// Accepts the formats that the capture path converts; any other fails
/// with `UnsupportedFormat` naming it.
pub fn check_sample_format(f: SampleFormat) -> (r: Result<(), RecorderError>)
    ensures
        is_accepted(f) ==> r is Ok,
        !is_accepted(f) ==> (r matches Err(RecorderError::UnsupportedFormat(m)) && m@
            == format_name(f)),
{
    match f {
        SampleFormat::U8 | SampleFormat::I8 | SampleFormat::I16 | SampleFormat::I32
        | SampleFormat::F32 => Ok(()),
        _ => Err(RecorderError::UnsupportedFormat(from_chars(to_chars(f.name()).as_slice()))),
    }
}

pub open spec fn contains_target(r: RateRange) -> bool {
    r.min <= SAMPLE_RATE && SAMPLE_RATE <= r.max
}

/// The first supported range that contains 16 kHz, to be used at 16 kHz;
/// `None` when there is none, and the device's default configuration is
/// used instead.
pub fn preferred_range(ranges: &[RateRange]) -> (r: Option<usize>)
    ensures
        match r {
            Some(i) => i < ranges@.len() && contains_target(ranges@[i as int]) && forall|j: int|
                0 <= j < i ==> !contains_target(#[trigger] ranges@[j]),
            None => forall|j: int| 0 <= j < ranges@.len() ==> !contains_target(#[trigger] ranges@[j]),
        },
{
    let mut i: usize = 0;
    while i < ranges.len()
        invariant
            i <= ranges@.len(),
            forall|j: int| 0 <= j < i ==> !contains_target(#[trigger] ranges@[j]),
        decreases ranges@.len() - i,
    {
        let range = ranges[i];
        if range.min <= SAMPLE_RATE as u32 && SAMPLE_RATE as u32 <= range.max {
            return Some(i);
        }
        i = i + 1;
    }
    None
}

/// The outcome of opening the device, from the worker's start-up reply;
/// `None` is no reply within the handshake's time limit.
pub fn init_outcome(reply: Option<Result<(), RecorderError>>) -> (r: Result<(), RecorderError>)
    ensures
        match reply {
            Some(x) => r == x,
            None => r matches Err(RecorderError::Other(m)) && m@
                == "Audio initialization timed out or failed unexpectedly"@,
        },
{
    match reply {
        Some(x) => x,
        None => Err(
            RecorderError::Other(
                from_chars(
                    to_chars("Audio initialization timed out or failed unexpectedly").as_slice(),
                ),
            ),
        ),
    }
}

/// The input device to open among the listed device names: the first one
/// named exactly as the selected microphone; `None` when no microphone is
/// selected or none has that name, and the system default is opened.
pub fn pick_device(names: &Vec<String>, selected: Option<&str>) -> (r: Option<usize>)
    ensures
        match selected {
            None => r is None,
            Some(sel) => match r {
                Some(i) => i < names@.len() && names@[i as int]@ == sel@ && forall|j: int|
                    0 <= j < i ==> (#[trigger] names@[j])@ != sel@,
                None => forall|j: int| 0 <= j < names@.len() ==> (#[trigger] names@[j])@ != sel@,
            },
        },
{
    match selected {
        None => None,
        Some(sel) => {
            let want = to_chars(sel);
            let mut i: usize = 0;
            while i < names.len()
                invariant
                    i <= names@.len(),
                    want@ == sel@,
                    selected == Some(sel),
                    forall|j: int| 0 <= j < i ==> (#[trigger] names@[j])@ != sel@,
                decreases names@.len() - i,
            {
                let have = to_chars(names[i].as_str());
                assert(have@ == names@[i as int]@);
                if chars_eq(have.as_slice(), want.as_slice()) {
                    assert(names@[i as int]@ == sel@);
                    return Some(i);
                }
                i = i + 1;
            }
            None
        },
    }
}

} // verus!
