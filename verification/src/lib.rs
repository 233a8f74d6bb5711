//! Verified core of an audio fingerprint service.
//!
//! The service extracts a fixed 25-dimensional perceptual fingerprint from a
//! decoded PCM stream.  The heavy numeric pipeline works on 64-bit floats and
//! therefore lives outside this library, in the unverified host around it.
//! What this library verifies is everything about that pipeline that is exact
//! integer or text logic:
//!
//! * the failure taxonomy and its HTTP status mapping ([`error`]),
//! * input validation and per-call resource planning for the engine
//!   ([`engine`]),
//! * the Hann frame schedule of the streaming spectrogram pass ([`framing`]),
//! * the mapping from FFT bins to the seven perceptual frequency bands
//!   ([`bands`]),
//! * the declared ranges the assembler clamps each dimension to
//!   ([`dimensions`]),
//! * container-format detection from file extensions ([`format`]),
//! * the plain request/response records of the HTTP surface ([`models`]).
pub mod bands;
pub mod dimensions;
pub mod engine;
pub mod error;
pub mod format;
pub mod framing;
pub mod models;
pub mod text;

pub use error::FingerprintError;
