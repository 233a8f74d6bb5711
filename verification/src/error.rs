//! Failure taxonomy of the fingerprint service.
//!
//! Every failure the service can report belongs to one of the kinds below,
//! and each kind maps to exactly one HTTP status code: 404 for a missing
//! file, 415 for an unsupported container, 400 for undecodable or invalid
//! audio, 503 when the projected memory of a call is over the cap, 499 for a
//! cooperative cancellation, and 500 for everything that failed inside the
//! engine or the host.
use vstd::prelude::*;

verus! {

/// One failure of the fingerprint service, carrying a human-readable message.
#[derive(Debug, Clone)]
pub enum FingerprintError {
    /// The requested audio file does not exist.
    FileNotFound(String),
    /// The container format is not one the decoder supports.
    UnsupportedFormat(String),
    /// The decoder recognised the container but could not decode it.
    DecodingError(String),
    /// The audio itself is unusable: empty, non-finite samples, or a sample
    /// rate outside the supported range.
    InvalidAudio(String),
    /// The engine failed internally, for example on a buffer too short for
    /// one FFT frame.
    AnalysisError(String),
    /// The projected per-call memory is above the configured cap.
    ResourceExhausted(String),
    /// A cooperative cancellation token fired during analysis.
    Cancelled(String),
    /// An input/output error outside the decoder.
    IoError(String),
    /// An unexpected, unclassified failure.
    InternalError(String),
}

impl FingerprintError {
    /// The HTTP status code of this failure kind.
    pub open spec fn spec_status_code(&self) -> u16 {
        match self {
            FingerprintError::FileNotFound(_) => 404,
            FingerprintError::UnsupportedFormat(_) => 415,
            FingerprintError::DecodingError(_) => 400,
            FingerprintError::InvalidAudio(_) => 400,
            FingerprintError::AnalysisError(_) => 500,
            FingerprintError::ResourceExhausted(_) => 503,
            FingerprintError::Cancelled(_) => 499,
            FingerprintError::IoError(_) => 500,
            FingerprintError::InternalError(_) => 500,
        }
    }

    /// Maps each failure kind to its HTTP status code.
    pub fn status_code(&self) -> (code: u16)
        ensures
            code == self.spec_status_code(),
    {
        match self {
            FingerprintError::FileNotFound(_) => 404,
            FingerprintError::UnsupportedFormat(_) => 415,
            FingerprintError::DecodingError(_) => 400,
            FingerprintError::InvalidAudio(_) => 400,
            FingerprintError::AnalysisError(_) => 500,
            FingerprintError::ResourceExhausted(_) => 503,
            FingerprintError::Cancelled(_) => 499,
            FingerprintError::IoError(_) => 500,
            FingerprintError::InternalError(_) => 500,
        }
    }

    /// The message carried by this failure, whatever its kind.
    pub open spec fn spec_message(&self) -> Seq<char> {
        match self {
            FingerprintError::FileNotFound(m) => m@,
            FingerprintError::UnsupportedFormat(m) => m@,
            FingerprintError::DecodingError(m) => m@,
            FingerprintError::InvalidAudio(m) => m@,
            FingerprintError::AnalysisError(m) => m@,
            FingerprintError::ResourceExhausted(m) => m@,
            FingerprintError::Cancelled(m) => m@,
            FingerprintError::IoError(m) => m@,
            FingerprintError::InternalError(m) => m@,
        }
    }

    /// Borrows the message carried by this failure.
    pub fn message(&self) -> (msg: &String)
        ensures
            msg@ == self.spec_message(),
    {
        match self {
            FingerprintError::FileNotFound(m) => m,
            FingerprintError::UnsupportedFormat(m) => m,
            FingerprintError::DecodingError(m) => m,
            FingerprintError::InvalidAudio(m) => m,
            FingerprintError::AnalysisError(m) => m,
            FingerprintError::ResourceExhausted(m) => m,
            FingerprintError::Cancelled(m) => m,
            FingerprintError::IoError(m) => m,
            FingerprintError::InternalError(m) => m,
        }
    }
}

} // verus!
