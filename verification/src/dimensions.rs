//! The declared ranges of the 25 fingerprint dimensions.
//!
//! A fingerprint has exactly 25 named 64-bit-float fields, each bounded:
//! the seven band percentages in `[0, 100]`, loudness in `[-120, 0]`, crest
//! factor in `[0, 50]`, the bass/mid ratio in `[-40, 40]` dB, tempo in
//! `[40, 200]` BPM, loudness variation in `[0, 10]` dB, phase correlation
//! in `[-1, 1]`, and every remaining dimension in `[0, 1]`.  The assembler
//! clamps each dimension to the range declared here; every range is
//! non-empty, so clamping a finite value always lands inside it.
use vstd::prelude::*;

verus! {

/// Number of fingerprint dimensions.
pub const DIMENSIONS: usize = 25;

/// Lower bound of dimension `d`, in the dimension order of the record:
/// seven band percentages, three dynamics, four temporal, three spectral,
/// three harmonic, three variation and two stereo dimensions.
pub open spec fn spec_dimension_low(d: int) -> int {
    if d < 7 {
        0
    } else if d == 7 {
        -120
    } else if d == 8 {
        0
    } else if d == 9 {
        -40
    } else if d == 10 {
        40
    } else if d == 24 {
        -1
    } else {
        0
    }
}

/// Upper bound of dimension `d`.
pub open spec fn spec_dimension_high(d: int) -> int {
    if d < 7 {
        100
    } else if d == 7 {
        0
    } else if d == 8 {
        50
    } else if d == 9 {
        40
    } else if d == 10 {
        200
    } else if d == 21 {
        10
    } else {
        1
    }
}

/// The declared range of dimension `d`; every range is non-empty.
pub fn dimension_range(d: usize) -> (r: (i32, i32))
    requires
        d < DIMENSIONS,
    ensures
        r.0 == spec_dimension_low(d as int),
        r.1 == spec_dimension_high(d as int),
        r.0 < r.1,
{
    if d < 7 {
        (0, 100)
    } else if d == 7 {
        (-120, 0)
    } else if d == 8 {
        (0, 50)
    } else if d == 9 {
        (-40, 40)
    } else if d == 10 {
        (40, 200)
    } else if d == 21 {
        (0, 10)
    } else if d == 24 {
        (-1, 1)
    } else {
        (0, 1)
    }
}

} // verus!
