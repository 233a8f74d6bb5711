use fingerprint_server::engine::plan_analysis;
use fingerprint_server::engine::projected_memory_bytes;
use fingerprint_server::engine::validate_input;
use fingerprint_server::engine::Strategy;
use fingerprint_server::engine::MEMORY_CAP_BYTES;
use fingerprint_server::FingerprintError;

#[test]
fn empty_buffer_is_invalid_audio() {
    let err = validate_input(0, 44100, 1).unwrap_err();
    match &err {
        FingerprintError::InvalidAudio(m) => assert_eq!(m, "No samples to analyze"),
        other => panic!("unexpected error kind: {:?}", other),
    }
    assert_eq!(err.status_code(), 400);
}

#[test]
fn out_of_range_sample_rate_is_invalid_audio() {
    assert!(matches!(
        validate_input(44100, 7999, 1),
        Err(FingerprintError::InvalidAudio(_))
    ));
    assert!(matches!(
        validate_input(44100, 384001, 1),
        Err(FingerprintError::InvalidAudio(_))
    ));
    assert!(validate_input(44100, 8000, 1).is_ok());
    assert!(validate_input(44100, 384000, 1).is_ok());
}

#[test]
fn bad_channel_count_is_invalid_audio() {
    assert!(matches!(
        validate_input(44100, 44100, 0),
        Err(FingerprintError::InvalidAudio(_))
    ));
    assert!(matches!(
        validate_input(44100, 44100, 3),
        Err(FingerprintError::InvalidAudio(_))
    ));
    assert!(validate_input(44100, 44100, 2).is_ok());
}

#[test]
fn short_buffer_is_analysis_error() {
    let err = validate_input(2047, 44100, 1).unwrap_err();
    match &err {
        FingerprintError::AnalysisError(m) => assert_eq!(m, "Not enough samples for FFT"),
        other => panic!("unexpected error kind: {:?}", other),
    }
    assert_eq!(err.status_code(), 500);
}

#[test]
fn minimal_buffer_plan() {
    let plan = plan_analysis(2048, 48000, 1, Strategy::Fast).unwrap();
    assert_eq!(plan.frames, 3);
    assert_eq!(plan.flux_len, 1);
    assert_eq!(plan.chunk_size, 4800);
    assert_eq!(plan.chunks, 1);
    assert!(plan.tempo_fallback);
}

#[test]
fn ten_second_buffer_plan() {
    // ten seconds at 44.1 kHz
    let plan = plan_analysis(441000, 44100, 1, Strategy::Fast).unwrap();
    assert_eq!(plan.frames, (441000 - 1024) / 512 + 1);
    assert_eq!(plan.flux_len, (441000 - 2048) / 512 + 1);
    assert_eq!(plan.chunk_size, 4410);
    assert_eq!(plan.chunks, 100);
    assert!(!plan.tempo_fallback);
}

#[test]
fn chunk_count_rounds_up_on_short_tail() {
    let plan = plan_analysis(441001, 44100, 1, Strategy::Fast).unwrap();
    assert_eq!(plan.chunks, 101);
}

#[test]
fn fast_projection_counts_mono_buffer_and_scratch() {
    assert_eq!(
        projected_memory_bytes(96000, 48000, Strategy::Fast),
        8 * 96000 + 2 * 8 * 1024
    );
}

#[test]
fn full_projection_adds_stft_and_kernels() {
    let ff: u128 = (30_000_000 - 2048) / 512 + 1;
    assert_eq!(
        projected_memory_bytes(30_000_000, 48000, Strategy::Full),
        8 * 30_000_000 + 2 * 8 * 1024 + 8192 * ff + 896 * 48000
    );
}

#[test]
fn over_cap_fast_call_is_resource_exhausted() {
    // 8 bytes per sample: this many samples alone are over the cap
    let len = (MEMORY_CAP_BYTES / 8 + 1) as usize;
    let err = plan_analysis(len, 48000, 1, Strategy::Fast).unwrap_err();
    assert!(matches!(err, FingerprintError::ResourceExhausted(_)));
    assert_eq!(err.status_code(), 503);
}

#[test]
fn full_strategy_is_refused_where_fast_fits() {
    let len = 30_000_000usize;
    assert!(plan_analysis(len, 48000, 1, Strategy::Fast).is_ok());
    assert!(matches!(
        plan_analysis(len, 48000, 1, Strategy::Full),
        Err(FingerprintError::ResourceExhausted(_))
    ));
}
