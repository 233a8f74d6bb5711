//! The Hann frame schedule of the spectrogram passes.
//!
//! The engine walks the mono buffer in frames of `FFT_SIZE` samples whose
//! starts are `0, HOP, 2·HOP, …`.  The streaming aggregator emits a frame
//! while at least `FFT_SIZE / 2` real samples remain and zero-pads the short
//! tail; the flux pass of the tempo estimator keeps only frames with all
//! `FFT_SIZE` samples available.  The per-second statistics split the buffer
//! into fixed-size chunks instead.  This module carries those three
//! schedules in closed form and proves them against the loop rules.
use vstd::arithmetic::div_mod::lemma_div_is_ordered;
use vstd::arithmetic::div_mod::lemma_div_is_ordered_by_denominator;
use vstd::arithmetic::div_mod::lemma_div_multiples_vanish;
use vstd::arithmetic::div_mod::lemma_fundamental_div_mod;
use vstd::arithmetic::div_mod::lemma_mod_bound;
use vstd::arithmetic::mul::lemma_mul_inequality;
use vstd::arithmetic::mul::lemma_mul_nonnegative;
use vstd::prelude::*;

verus! {

/// Samples per analysis frame; fixed by contract, not tuning.
pub const FFT_SIZE: usize = 2048;

/// Samples between successive frame starts; fixed by contract.
pub const HOP: usize = 512;

/// Bins in one magnitude spectrum: half the FFT size.
pub const SPECTRUM_BINS: usize = 1024;

/// A frame is emitted while at least this many real samples remain.
pub const MIN_REMAIN: usize = 1024;

/// How many frames the streaming aggregator emits for `len` samples: starts
/// run every `HOP` samples while at least `FFT_SIZE / 2` samples remain.
pub open spec fn spec_frame_count(len: int) -> int {
    if len < MIN_REMAIN {
        0
    } else {
        (len - MIN_REMAIN) / (HOP as int) + 1
    }
}

/// How many frames have all `FFT_SIZE` samples available; the spectral-flux
/// series has exactly one entry per such frame.
pub open spec fn spec_full_frame_count(len: int) -> int {
    if len < FFT_SIZE {
        0
    } else {
        (len - FFT_SIZE) / (HOP as int) + 1
    }
}

/// How many chunks a buffer of `len` samples yields when split into chunks
/// of `chunk` samples, the last one possibly short.
pub open spec fn spec_chunk_count(len: int, chunk: int) -> int {
    len / chunk + if len % chunk == 0 {
        0int
    } else {
        1int
    }
}

/// The count of starts `i·step` with `i·step + need <= len` is
/// `(len - need) / step + 1` when `len >= need`, else zero: frame `i` is
/// scheduled exactly when its start leaves `need` samples.
proof fn lemma_start_scheduled_iff(len: int, need: int, step: int, i: int)
    requires
        0 <= i,
        0 < step,
        0 < need,
    ensures
        i < (if len < need {
            0int
        } else {
            (len - need) / step + 1
        }) <==> i * step + need <= len,
{
    lemma_mul_nonnegative(i, step);
    if len < need {
        // no start fits: even i == 0 leaves fewer than `need` samples
    } else {
        let m = len - need;
        lemma_fundamental_div_mod(m, step);
        lemma_mod_bound(m, step);
        let q = m / step;
        assert(step * q == q * step) by (nonlinear_arith);
        if i <= q {
            lemma_mul_inequality(i, q, step);
        }
        if i * step <= m {
            lemma_div_is_ordered(i * step, m, step);
            lemma_div_multiples_vanish(i, step);
            assert(i * step == step * i) by (nonlinear_arith);
        }
    }
}

/// Loop rule of the streaming aggregator: frame `i` is emitted exactly when
/// its start `i·HOP` leaves at least `FFT_SIZE / 2` samples in the buffer.
pub proof fn lemma_frame_emitted_iff(len: int, i: int)
    requires
        0 <= i,
    ensures
        i < spec_frame_count(len) <==> i * (HOP as int) + (MIN_REMAIN as int) <= len,
{
    lemma_start_scheduled_iff(len, MIN_REMAIN as int, HOP as int, i);
}

/// Loop rule of the flux pass: frame `i` contributes a flux entry exactly
/// when its start leaves all `FFT_SIZE` samples in the buffer.
pub proof fn lemma_full_frame_iff(len: int, i: int)
    requires
        0 <= i,
    ensures
        i < spec_full_frame_count(len) <==> i * (HOP as int) + (FFT_SIZE as int) <= len,
{
    lemma_start_scheduled_iff(len, FFT_SIZE as int, HOP as int, i);
}

/// Every full frame is also emitted by the aggregator.
pub proof fn lemma_full_frames_are_emitted(len: int)
    ensures
        spec_full_frame_count(len) <= spec_frame_count(len),
{
    if spec_full_frame_count(len) > 0 {
        lemma_div_is_ordered(len - FFT_SIZE, len - MIN_REMAIN, HOP as int);
    }
}

/// Counts the frames the streaming aggregator emits.
pub fn frame_count(len: usize) -> (n: usize)
    ensures
        n == spec_frame_count(len as int),
{
    if len < MIN_REMAIN {
        0
    } else {
        proof {
            lemma_div_is_ordered_by_denominator(len - MIN_REMAIN, 1, HOP as int);
        }
        (len - MIN_REMAIN) / HOP + 1
    }
}

/// Counts the frames with all `FFT_SIZE` samples available; the spectral
/// flux series has exactly this many entries.
pub fn full_frame_count(len: usize) -> (n: usize)
    ensures
        n == spec_full_frame_count(len as int),
{
    if len < FFT_SIZE {
        0
    } else {
        proof {
            lemma_div_is_ordered_by_denominator(len - FFT_SIZE, 1, HOP as int);
        }
        (len - FFT_SIZE) / HOP + 1
    }
}

/// Start, real-sample count and zero-padding of emitted frame `i`: the
/// frame takes `FFT_SIZE` samples from its start when they are available,
/// else all that remain, and is padded with zeros up to `FFT_SIZE`.
pub fn frame_fill(i: usize, len: usize) -> (r: (usize, usize, usize))
    requires
        i < spec_frame_count(len as int),
    ensures
        r.0 == i * (HOP as int),
        r.1 == (if len - r.0 >= FFT_SIZE {
            FFT_SIZE as int
        } else {
            len - r.0
        }),
        r.2 == FFT_SIZE - r.1,
        r.0 + r.1 <= len,
        r.1 + r.2 == FFT_SIZE,
        MIN_REMAIN <= r.1 <= FFT_SIZE,
{
    proof {
        lemma_frame_emitted_iff(len as int, i as int);
    }
    let start = i * HOP;
    let remain = len - start;
    let take = if remain >= FFT_SIZE {
        FFT_SIZE
    } else {
        remain
    };
    (start, take, FFT_SIZE - take)
}

/// Counts the fixed-size chunks of a buffer, the last possibly short; the
/// per-second statistics and the rhythm-stability pass run per chunk.
pub fn chunk_count(len: usize, chunk: usize) -> (n: usize)
    requires
        chunk >= 1,
    ensures
        n == spec_chunk_count(len as int, chunk as int),
{
    let d = len / chunk;
    if len % chunk == 0 {
        d
    } else {
        proof {
            lemma_fundamental_div_mod(len as int, chunk as int);
            if chunk == 1 {
                assert(len % chunk == 0);
            }
            lemma_div_is_ordered_by_denominator(len as int, 2, chunk as int);
            lemma_div_is_ordered_by_denominator(len as int, 1, 2);
        }
        d + 1
    }
}

/// The chunk count is the least number of chunks that covers the buffer:
/// `n` chunks reach `n·chunk >= len` samples and `n - 1` do not.
pub proof fn lemma_chunk_count_covers(len: int, chunk: int)
    requires
        0 <= len,
        0 < chunk,
    ensures
        spec_chunk_count(len, chunk) * chunk >= len,
        len > 0 ==> (spec_chunk_count(len, chunk) - 1) * chunk < len,
        len == 0 ==> spec_chunk_count(len, chunk) == 0,
{
    lemma_fundamental_div_mod(len, chunk);
    let d = len / chunk;
    assert(d * chunk == chunk * d) by (nonlinear_arith);
    if len % chunk == 0 {
        if len > 0 {
            assert((d - 1) * chunk == d * chunk - chunk) by (nonlinear_arith);
        }
    } else {
        assert((d + 1) * chunk == d * chunk + chunk) by (nonlinear_arith);
    }
}

} // verus!
