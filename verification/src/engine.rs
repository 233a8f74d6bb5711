//! Input validation and per-call resource planning of the engine façade.
//!
//! One `analyze` call is admitted only when its PCM input is usable (a
//! non-empty buffer, a sample rate in the supported range, one or two
//! channels, and at least one full FFT frame) and when the memory the call
//! would take stays under a fixed cap.  The admitted call then follows a
//! plan: how many frames the streaming aggregator emits, how long the
//! spectral-flux series is, how the per-second statistics chunk the buffer,
//! and whether the tempo estimator must fall back to its default.
use crate::error::FingerprintError;
use crate::framing::lemma_frame_emitted_iff;
use crate::framing::lemma_full_frame_iff;
use crate::framing::lemma_chunk_count_covers;
use crate::framing::chunk_count;
use crate::framing::frame_count;
use crate::framing::full_frame_count;
use crate::framing::spec_chunk_count;
use crate::framing::spec_frame_count;
use crate::framing::spec_full_frame_count;
use crate::framing::FFT_SIZE;
use crate::framing::SPECTRUM_BINS;
use vstd::prelude::*;
use vstd::string::StringExecFns;

verus! {

/// Lowest supported sample rate in Hz.
pub const MIN_SAMPLE_RATE_HZ: u32 = 8000;

/// Highest supported sample rate in Hz.
pub const MAX_SAMPLE_RATE_HZ: u32 = 384000;

/// Per-call memory cap in bytes: a call whose projected memory is above
/// this is refused.
pub const MEMORY_CAP_BYTES: u64 = 512 * 1024 * 1024;

/// The per-second statistics chunk the buffer into windows of one tenth of
/// a second: `sample_rate / 10` samples.
pub const CHUNK_RATE_DIVISOR: u32 = 10;

/// Bytes of one 64-bit PCM sample.
pub const SAMPLE_BYTES: u64 = 8;

/// Bytes of one complex spectrum entry of the harmonic separation's STFT.
pub const STFT_COMPLEX_BYTES: u64 = 8;

/// Upper bound, in samples per Hz of sample rate, on the total length of
/// the constant-Q kernels: the kernel for bin `k` of 252 holds about
/// `34.66 · sample_rate / (32.7 · 2^(k/36))` samples, and that geometric
/// series sums to fewer than 56 samples per Hz.
pub const CQT_KERNEL_SAMPLES_PER_HZ: u64 = 56;

/// Bytes of one complex constant-Q kernel entry.
pub const CQT_COMPLEX_BYTES: u64 = 16;

/// How thoroughly the harmonic analyzer works.  Both strategies fill the
/// same fields with the same ranges; only accuracy and cost differ.
#[derive(Clone, Copy, Debug, PartialEq, Eq, Structural)]
pub enum Strategy {
    /// Median-filtered source separation, per-frame pitch tracking and a
    /// constant-Q chromagram.
    Full,
    /// Spectrum-peak harmonic ratio, constant pitch stability and
    /// band-energy chroma.
    Fast,
}

/// The PCM input is usable: non-empty, a supported sample rate, one or two
/// channels, and at least one full FFT frame of samples.
pub open spec fn spec_input_ok(len: int, sample_rate: int, channels: int) -> bool {
    &&& len > 0
    &&& MIN_SAMPLE_RATE_HZ <= sample_rate <= MAX_SAMPLE_RATE_HZ
    &&& channels == 1 || channels == 2
    &&& len >= FFT_SIZE
}

/// Projected bytes of one `analyze` call: the mono buffer, the streaming
/// aggregator's two retained spectra, and for the full strategy also the
/// complex STFT of the harmonic separation and the constant-Q kernels.
pub open spec fn spec_projected_bytes(len: int, sample_rate: int, strategy: Strategy) -> int {
    let mono = SAMPLE_BYTES * len;
    let scratch = 2 * SAMPLE_BYTES * SPECTRUM_BINS;
    if strategy is Fast {
        mono + scratch
    } else {
        mono + scratch + STFT_COMPLEX_BYTES * SPECTRUM_BINS * spec_full_frame_count(len)
            + CQT_COMPLEX_BYTES * CQT_KERNEL_SAMPLES_PER_HZ * sample_rate
    }
}

/// Computes the projected bytes of one call.
pub fn projected_memory_bytes(len: usize, sample_rate: u32, strategy: Strategy) -> (b: u128)
    ensures
        b == spec_projected_bytes(len as int, sample_rate as int, strategy),
{
    let mono: u128 = (len as u128) * (SAMPLE_BYTES as u128);
    let scratch: u128 = 2 * (SAMPLE_BYTES as u128) * (SPECTRUM_BINS as u128);
    match strategy {
        Strategy::Fast => mono + scratch,
        Strategy::Full => {
            let ff = full_frame_count(len);
            proof {
                assert(STFT_COMPLEX_BYTES == 8 && SPECTRUM_BINS == 1024 && CQT_COMPLEX_BYTES
                    == 16 && CQT_KERNEL_SAMPLES_PER_HZ == 56);
            }
            let stft: u128 = 8192 * (ff as u128);
            let kernels: u128 = 896 * (sample_rate as u128);
            proof {
                assert(stft == STFT_COMPLEX_BYTES * SPECTRUM_BINS * (ff as int));
                assert(kernels == CQT_COMPLEX_BYTES * CQT_KERNEL_SAMPLES_PER_HZ * (
                sample_rate as int));
            }
            mono + scratch + stft + kernels
        },
    }
}

/// Admits or refuses the PCM input of one call.
///
/// An empty buffer, an unsupported sample rate and an unsupported channel
/// count are invalid audio; a buffer shorter than one FFT frame is an
/// engine-side analysis failure.
pub fn validate_input(len: usize, sample_rate: u32, channels: u8) -> (r: Result<
    (),
    FingerprintError,
>)
    ensures
        r is Ok <==> spec_input_ok(len as int, sample_rate as int, channels as int),
        len == 0 ==> (r matches Err(e) && e matches FingerprintError::InvalidAudio(m) && m@
            == "No samples to analyze"@),
        len > 0 && !(MIN_SAMPLE_RATE_HZ <= sample_rate <= MAX_SAMPLE_RATE_HZ) ==> (r matches
            Err(e) && e matches FingerprintError::InvalidAudio(m) && m@
            == "Unsupported sample rate"@),
        len > 0 && MIN_SAMPLE_RATE_HZ <= sample_rate <= MAX_SAMPLE_RATE_HZ && !(channels == 1
            || channels == 2) ==> (r matches Err(e) && e matches FingerprintError::InvalidAudio(m)
            && m@ == "Unsupported channel count"@),
        len > 0 && MIN_SAMPLE_RATE_HZ <= sample_rate <= MAX_SAMPLE_RATE_HZ && (channels == 1
            || channels == 2) && len < FFT_SIZE ==> (r matches Err(e) && e matches
            FingerprintError::AnalysisError(m) && m@ == "Not enough samples for FFT"@),
{
    if len == 0 {
        Err(FingerprintError::InvalidAudio(String::from_str("No samples to analyze")))
    } else if sample_rate < MIN_SAMPLE_RATE_HZ || sample_rate > MAX_SAMPLE_RATE_HZ {
        Err(FingerprintError::InvalidAudio(String::from_str("Unsupported sample rate")))
    } else if channels != 1 && channels != 2 {
        Err(FingerprintError::InvalidAudio(String::from_str("Unsupported channel count")))
    } else if len < FFT_SIZE {
        Err(FingerprintError::AnalysisError(String::from_str("Not enough samples for FFT")))
    } else {
        Ok(())
    }
}

/// The plan of one admitted `analyze` call.
#[derive(Debug)]
pub struct AnalysisPlan {
    /// The harmonic strategy the call runs with.
    pub strategy: Strategy,
    /// Frames the streaming aggregator emits into the average spectrum.
    pub frames: usize,
    /// Entries of the spectral-flux series: frames with all samples
    /// available.
    pub flux_len: usize,
    /// Samples of one tenth-of-a-second statistics chunk.
    pub chunk_size: usize,
    /// Chunks of the per-second statistics, the last possibly short.
    pub chunks: usize,
    /// The flux series is too short for autocorrelation, so the tempo
    /// estimator reports its 120 BPM default.
    pub tempo_fallback: bool,
}

/// Validates one call and lays out its plan.
///
/// Refuses unusable PCM input like [`validate_input`], refuses a call whose
/// projected memory is above [`MEMORY_CAP_BYTES`], and otherwise returns
/// the exact frame, flux and chunk schedule of the call.
pub fn plan_analysis(len: usize, sample_rate: u32, channels: u8, strategy: Strategy) -> (r:
    Result<AnalysisPlan, FingerprintError>)
    ensures
        r is Ok <==> spec_input_ok(len as int, sample_rate as int, channels as int)
            && spec_projected_bytes(len as int, sample_rate as int, strategy)
            <= MEMORY_CAP_BYTES,
        len == 0 ==> (r matches Err(e) && e matches FingerprintError::InvalidAudio(m) && m@
            == "No samples to analyze"@),
        len > 0 && !(MIN_SAMPLE_RATE_HZ <= sample_rate <= MAX_SAMPLE_RATE_HZ) ==> (r matches
            Err(e) && e matches FingerprintError::InvalidAudio(m) && m@
            == "Unsupported sample rate"@),
        len > 0 && MIN_SAMPLE_RATE_HZ <= sample_rate <= MAX_SAMPLE_RATE_HZ && !(channels == 1
            || channels == 2) ==> (r matches Err(e) && e matches FingerprintError::InvalidAudio(m)
            && m@ == "Unsupported channel count"@),
        len > 0 && MIN_SAMPLE_RATE_HZ <= sample_rate <= MAX_SAMPLE_RATE_HZ && (channels == 1
            || channels == 2) && len < FFT_SIZE ==> (r matches Err(e) && e matches
            FingerprintError::AnalysisError(m) && m@ == "Not enough samples for FFT"@),
        spec_input_ok(len as int, sample_rate as int, channels as int) && spec_projected_bytes(
            len as int,
            sample_rate as int,
            strategy,
        ) > MEMORY_CAP_BYTES ==> (r matches Err(e) && e matches
            FingerprintError::ResourceExhausted(m) && m@
            == "Projected analysis memory is above the configured cap"@),
        r matches Ok(p) ==> {
            &&& p.strategy == strategy
            &&& p.frames == spec_frame_count(len as int)
            &&& p.flux_len == spec_full_frame_count(len as int)
            &&& p.chunk_size == sample_rate as int / CHUNK_RATE_DIVISOR as int
            &&& p.chunks == spec_chunk_count(len as int, p.chunk_size as int)
            &&& p.tempo_fallback == (spec_full_frame_count(len as int) < 2)
            &&& 1 <= p.frames
            &&& 1 <= p.flux_len
            &&& 1 <= p.chunks
        },
{
    match validate_input(len, sample_rate, channels) {
        Err(e) => Err(e),
        Ok(()) => {
            let projected = projected_memory_bytes(len, sample_rate, strategy);
            if projected > MEMORY_CAP_BYTES as u128 {
                Err(
                    FingerprintError::ResourceExhausted(
                        String::from_str("Projected analysis memory is above the configured cap"),
                    ),
                )
            } else {
                let chunk_size = (sample_rate / CHUNK_RATE_DIVISOR) as usize;
                let frames = frame_count(len);
                let flux_len = full_frame_count(len);
                let chunks = chunk_count(len, chunk_size);
                proof {
                    lemma_frame_emitted_iff(len as int, 0);
                    lemma_full_frame_iff(len as int, 0);
                    lemma_chunk_count_covers(len as int, chunk_size as int);
                    assert(chunks >= 1) by (nonlinear_arith)
                        requires
                            chunks as int * (chunk_size as int) >= len as int,
                            len as int > 0,
                            chunk_size as int > 0,
                    ;
                }
                Ok(
                    AnalysisPlan {
                        strategy,
                        frames,
                        flux_len,
                        chunk_size,
                        chunks,
                        tempo_fallback: flux_len < 2,
                    },
                )
            }
        },
    }
}

} // verus!
