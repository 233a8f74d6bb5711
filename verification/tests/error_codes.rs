use fingerprint_server::dimensions::dimension_range;
use fingerprint_server::dimensions::DIMENSIONS;
use fingerprint_server::models::FingerprintRequest;
use fingerprint_server::models::HealthResponse;
use fingerprint_server::text::chars_contain;
use fingerprint_server::text::chars_eq_str;
use fingerprint_server::text::chars_of;
use fingerprint_server::text::last_index_of_char;
use fingerprint_server::text::lower_chars;
use fingerprint_server::FingerprintError;

#[test]
fn status_codes_follow_the_taxonomy() {
    let m = || "m".to_string();
    assert_eq!(FingerprintError::FileNotFound(m()).status_code(), 404);
    assert_eq!(FingerprintError::UnsupportedFormat(m()).status_code(), 415);
    assert_eq!(FingerprintError::DecodingError(m()).status_code(), 400);
    assert_eq!(FingerprintError::InvalidAudio(m()).status_code(), 400);
    assert_eq!(FingerprintError::AnalysisError(m()).status_code(), 500);
    assert_eq!(FingerprintError::ResourceExhausted(m()).status_code(), 503);
    assert_eq!(FingerprintError::Cancelled(m()).status_code(), 499);
    assert_eq!(FingerprintError::IoError(m()).status_code(), 500);
    assert_eq!(FingerprintError::InternalError(m()).status_code(), 500);
}

#[test]
fn message_returns_the_carried_text() {
    let err = FingerprintError::DecodingError("bad frame header".to_string());
    assert_eq!(err.message(), "bad frame header");
}

#[test]
fn request_and_health_records_hold_plain_values() {
    let req = FingerprintRequest { track_id: 7, filepath: "/tmp/a.wav".to_string() };
    assert_eq!(req.track_id, 7);
    assert_eq!(req.filepath, "/tmp/a.wav");
    let health = HealthResponse {
        status: "healthy".to_string(),
        version: "0.1.0".to_string(),
        uptime_sec: 12,
    };
    assert_eq!(health.status, "healthy");
    assert_eq!(health.uptime_sec, 12);
}

#[test]
fn declared_dimension_ranges() {
    // band percentages
    assert_eq!(dimension_range(0), (0, 100));
    assert_eq!(dimension_range(6), (0, 100));
    // dynamics
    assert_eq!(dimension_range(7), (-120, 0));
    assert_eq!(dimension_range(8), (0, 50));
    assert_eq!(dimension_range(9), (-40, 40));
    // tempo and the unit-interval dimensions
    assert_eq!(dimension_range(10), (40, 200));
    assert_eq!(dimension_range(13), (0, 1));
    // loudness variation and phase correlation
    assert_eq!(dimension_range(21), (0, 10));
    assert_eq!(dimension_range(24), (-1, 1));
    for d in 0..DIMENSIONS {
        let (lo, hi) = dimension_range(d);
        assert!(lo < hi);
    }
}

#[test]
fn health_builder_reports_healthy() {
    let report = HealthResponse::healthy("0.1.0".to_string(), 42);
    assert_eq!(report.status, "healthy");
    assert_eq!(report.version, "0.1.0");
    assert_eq!(report.uptime_sec, 42);
}

#[test]
fn character_utilities() {
    let cs = chars_of("MiXeD.Case");
    assert!(chars_eq_str(&cs, "MiXeD.Case"));
    assert!(!chars_eq_str(&cs, "mixed.case"));
    assert!(chars_eq_str(&lower_chars(&cs), "mixed.case"));
    assert_eq!(last_index_of_char(&cs, '.'), Some(5));
    assert_eq!(last_index_of_char(&cs, '/'), None);
}

#[test]
fn substring_search_finds_inner_runs() {
    let hay = chars_of("the stream was truncated near the end");
    assert!(chars_contain(&hay, "truncated"));
    assert!(chars_contain(&hay, "the end"));
    assert!(chars_contain(&hay, ""));
    assert!(!chars_contain(&hay, "truncatedx"));
    assert!(!chars_contain(&hay, "stream  was"));
}
