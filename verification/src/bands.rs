//! The seven perceptual frequency bands.
//!
//! The band integrator sums the average magnitude spectrum over the bands
//! `[20, 60)`, `[60, 250)`, `[250, 500)`, `[500, 2000)`, `[2000, 4000)`,
//! `[4000, 6000)` and `[6000, 20000)` Hz.  Spectrum bin `k` at sample rate
//! `sr` has centre frequency `k·sr / FFT_SIZE` Hz, so bin membership in a
//! band is the exact integer predicate
//! `low·FFT_SIZE <= k·sr < high·FFT_SIZE`.  This module computes each
//! band's bin range in closed form and proves that the bands tile the
//! audible range without overlap — the reason the seven band percentages
//! can never sum above the whole.
use crate::framing::FFT_SIZE;
use crate::framing::SPECTRUM_BINS;
use vstd::arithmetic::div_mod::lemma_fundamental_div_mod;
use vstd::arithmetic::div_mod::lemma_mod_bound;
use vstd::arithmetic::mul::lemma_mul_inequality;
use vstd::prelude::*;

verus! {

/// Number of perceptual bands.
pub const BAND_COUNT: usize = 7;

/// Lower edge of the audible range covered by the bands, in Hz.
pub const LOWEST_BAND_HZ: u64 = 20;

/// Upper edge of the audible range covered by the bands, in Hz.
pub const HIGHEST_BAND_HZ: u64 = 20000;

/// Lower edge of band `b` in Hz.
pub open spec fn spec_band_low_hz(b: int) -> int {
    if b == 0 {
        20
    } else if b == 1 {
        60
    } else if b == 2 {
        250
    } else if b == 3 {
        500
    } else if b == 4 {
        2000
    } else if b == 5 {
        4000
    } else {
        6000
    }
}

/// Upper edge of band `b` in Hz; each band ends where the next begins.
pub open spec fn spec_band_high_hz(b: int) -> int {
    if b == 6 {
        20000
    } else {
        spec_band_low_hz(b + 1)
    }
}

/// Spectrum bin `k` at sample rate `sr` falls in band `b`: its centre
/// frequency `k·sr / FFT_SIZE` lies in `[low, high)` Hz.
pub open spec fn spec_bin_in_band(k: int, sr: int, b: int) -> bool {
    spec_band_low_hz(b) * FFT_SIZE <= k * sr < spec_band_high_hz(b) * FFT_SIZE
}

/// Lower edge of band `b` in Hz.
pub fn band_low_hz(b: usize) -> (l: u64)
    requires
        b < BAND_COUNT,
    ensures
        l == spec_band_low_hz(b as int),
{
    if b == 0 {
        20
    } else if b == 1 {
        60
    } else if b == 2 {
        250
    } else if b == 3 {
        500
    } else if b == 4 {
        2000
    } else if b == 5 {
        4000
    } else {
        6000
    }
}

/// Upper edge of band `b` in Hz.
pub fn band_high_hz(b: usize) -> (h: u64)
    requires
        b < BAND_COUNT,
    ensures
        h == spec_band_high_hz(b as int),
{
    if b == 6 {
        20000
    } else {
        band_low_hz(b + 1)
    }
}

/// The least `c` with `c·d >= a`, for `a >= 0 < d`: facts about the
/// rounded-up quotient `(a + d - 1) / d`.
proof fn lemma_ceil_div(a: int, d: int)
    requires
        0 <= a,
        0 < d,
    ensures
        0 <= (a + d - 1) / d,
        ((a + d - 1) / d) * d >= a,
        (((a + d - 1) / d) - 1) * d < a,
{
    let c = (a + d - 1) / d;
    lemma_fundamental_div_mod(a + d - 1, d);
    lemma_mod_bound(a + d - 1, d);
    assert(d * c == c * d) by (nonlinear_arith);
    assert(c >= 0) by (nonlinear_arith)
        requires
            d * c == a + d - 1 - ((a + d - 1) % d),
            0 <= (a + d - 1) % d < d,
            0 <= a,
            0 < d,
    ;
    assert((c - 1) * d == c * d - d) by (nonlinear_arith);
}

/// Computes the bin range of band `b` at sample rate `sr`: the bins of the
/// magnitude spectrum inside the range are exactly those whose centre
/// frequency lies in the band.
pub fn band_bin_range(b: usize, sr: u32) -> (r: (usize, usize))
    requires
        b < BAND_COUNT,
        8000 <= sr <= 384000,
    ensures
        r.0 <= r.1 <= SPECTRUM_BINS,
        forall|k: int|
            0 <= k < SPECTRUM_BINS ==> (r.0 <= k < r.1 <==> #[trigger] spec_bin_in_band(
                k,
                sr as int,
                b as int,
            )),
{
    let low: u64 = band_low_hz(b);
    let high: u64 = band_high_hz(b);
    let sr64: u64 = sr as u64;
    let lo_target: u64 = low * (FFT_SIZE as u64);
    let hi_target: u64 = high * (FFT_SIZE as u64);
    let c_lo: u64 = (lo_target + sr64 - 1) / sr64;
    let c_hi: u64 = (hi_target + sr64 - 1) / sr64;
    proof {
        lemma_ceil_div(lo_target as int, sr64 as int);
        lemma_ceil_div(hi_target as int, sr64 as int);
    }
    let hi: u64 = if c_hi < (SPECTRUM_BINS as u64) {
        c_hi
    } else {
        SPECTRUM_BINS as u64
    };
    let lo: u64 = if c_lo < hi {
        c_lo
    } else {
        hi
    };
    proof {
        assert forall|k: int| 0 <= k < SPECTRUM_BINS implies (lo <= k < hi
            <==> #[trigger] spec_bin_in_band(k, sr as int, b as int)) by {
            if k >= c_lo {
                lemma_mul_inequality(c_lo as int, k, sr as int);
            } else {
                lemma_mul_inequality(k, c_lo as int - 1, sr as int);
            }
            if k >= c_hi {
                lemma_mul_inequality(c_hi as int, k, sr as int);
            } else {
                lemma_mul_inequality(k, c_hi as int - 1, sr as int);
            }
        }
    }
    (lo as usize, hi as usize)
}

/// The bands tile the audible range: a bin's centre frequency product
/// `k·sr` decides membership, no two bands share a bin, and some band takes
/// the bin exactly when the frequency lies in `[20, 20000)` Hz.
pub proof fn lemma_bands_partition(k: int, sr: int)
    requires
        0 <= k,
        0 < sr,
    ensures
        forall|b1: int, b2: int|
            0 <= b1 < b2 < BAND_COUNT ==> !(#[trigger] spec_bin_in_band(k, sr, b1)
                && #[trigger] spec_bin_in_band(k, sr, b2)),
        (exists|b: int| 0 <= b < BAND_COUNT && #[trigger] spec_bin_in_band(k, sr, b)) <==> (
        LOWEST_BAND_HZ * FFT_SIZE <= k * sr < HIGHEST_BAND_HZ * FFT_SIZE),
{
    let x = k * sr;
    if LOWEST_BAND_HZ * FFT_SIZE <= x < HIGHEST_BAND_HZ * FFT_SIZE {
        if x < 60 * FFT_SIZE {
            assert(spec_bin_in_band(k, sr, 0));
        } else if x < 250 * FFT_SIZE {
            assert(spec_bin_in_band(k, sr, 1));
        } else if x < 500 * FFT_SIZE {
            assert(spec_bin_in_band(k, sr, 2));
        } else if x < 2000 * FFT_SIZE {
            assert(spec_bin_in_band(k, sr, 3));
        } else if x < 4000 * FFT_SIZE {
            assert(spec_bin_in_band(k, sr, 4));
        } else if x < 6000 * FFT_SIZE {
            assert(spec_bin_in_band(k, sr, 5));
        } else {
            assert(spec_bin_in_band(k, sr, 6));
        }
    }
}

} // verus!
