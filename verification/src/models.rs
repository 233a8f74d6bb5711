//! Plain records of the HTTP surface.
//!
//! Only the records whose fields are plain integers and text live here; the
//! fingerprint record itself and the response metadata carry 64-bit floats
//! and belong to the unverified host around the library.
use vstd::prelude::*;
use vstd::string::StringExecFns;

verus! {

/// A request to fingerprint one track: its catalogue id and the local path
/// of the audio file.
#[derive(Debug, Clone)]
pub struct FingerprintRequest {
    /// Catalogue identifier of the track.
    pub track_id: u32,
    /// Local filesystem path of the audio file.
    pub filepath: String,
}

/// The health report of the service.
#[derive(Debug, Clone)]
pub struct HealthResponse {
    /// Fixed status text of a live service.
    pub status: String,
    /// Version of the running service.
    pub version: String,
    /// Seconds since the service started.
    pub uptime_sec: u64,
}

impl HealthResponse {
    /// Builds the report of a live service: the status text is always
    /// `healthy`.
    pub fn healthy(version: String, uptime_sec: u64) -> (r: HealthResponse)
        ensures
            r.status@ == "healthy"@,
            r.version@ == version@,
            r.uptime_sec == uptime_sec,
    {
        HealthResponse { status: String::from_str("healthy"), version, uptime_sec }
    }
}

} // verus!
