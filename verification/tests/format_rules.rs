use fingerprint_server::format::classify_probe_failure;
use fingerprint_server::format::detect_format_from_extension;
use fingerprint_server::format::infer_format;
use fingerprint_server::FingerprintError;

#[test]
fn detect_wav_lowercases() {
    assert_eq!(detect_format_from_extension("song.WAV").unwrap(), "wav");
}

#[test]
fn detect_wave_normalizes_to_wav() {
    assert_eq!(detect_format_from_extension("takes/live.wave").unwrap(), "wav");
}

#[test]
fn detect_flac_passes_through_table() {
    assert_eq!(detect_format_from_extension("a/b/track.flac").unwrap(), "flac");
}

#[test]
fn detect_mpeg_normalizes_to_mp3() {
    assert_eq!(detect_format_from_extension("x.mpeg").unwrap(), "mp3");
    assert_eq!(detect_format_from_extension("x.mpg").unwrap(), "mp3");
}

#[test]
fn detect_mp4_family_normalizes_to_m4a() {
    assert_eq!(detect_format_from_extension("x.MP4").unwrap(), "m4a");
    assert_eq!(detect_format_from_extension("x.m4b").unwrap(), "m4a");
    assert_eq!(detect_format_from_extension("x.m4v").unwrap(), "m4a");
}

#[test]
fn detect_opus_and_vorbis_map_to_ogg() {
    assert_eq!(detect_format_from_extension("x.opus").unwrap(), "ogg");
    assert_eq!(detect_format_from_extension("x.vorbis").unwrap(), "ogg");
    assert_eq!(detect_format_from_extension("x.oga").unwrap(), "ogg");
}

#[test]
fn detect_remaining_table_rows() {
    assert_eq!(detect_format_from_extension("x.adts").unwrap(), "aac");
    assert_eq!(detect_format_from_extension("x.aif").unwrap(), "aiff");
    assert_eq!(detect_format_from_extension("x.wmv").unwrap(), "wma");
    assert_eq!(detect_format_from_extension("x.mka").unwrap(), "mkv");
    assert_eq!(detect_format_from_extension("x.weba").unwrap(), "webm");
    assert_eq!(detect_format_from_extension("x.dff").unwrap(), "dsd");
    assert_eq!(detect_format_from_extension("x.qt").unwrap(), "mov");
    assert_eq!(detect_format_from_extension("x.snd").unwrap(), "au");
    assert_eq!(detect_format_from_extension("x.alac").unwrap(), "alac");
    assert_eq!(detect_format_from_extension("x.flv").unwrap(), "flv");
    assert_eq!(detect_format_from_extension("x.mxf").unwrap(), "mxf");
}

#[test]
fn detect_unknown_extension_passes_through_lowercased() {
    assert_eq!(detect_format_from_extension("x.XyZ").unwrap(), "xyz");
}

#[test]
fn detect_no_extension_is_invalid_audio() {
    let err = detect_format_from_extension("dir.with.dots/file").unwrap_err();
    match &err {
        FingerprintError::InvalidAudio(m) => {
            assert_eq!(m, "File has no extension: dir.with.dots/file");
        },
        other => panic!("unexpected error kind: {:?}", other),
    }
    assert_eq!(err.status_code(), 400);
}

#[test]
fn detect_hidden_file_has_no_extension() {
    assert!(detect_format_from_extension("music/.hidden").is_err());
}

#[test]
fn detect_trailing_dot_gives_empty_extension() {
    assert_eq!(detect_format_from_extension("track.").unwrap(), "");
}

#[test]
fn detect_uses_last_dot_of_last_component() {
    assert_eq!(detect_format_from_extension("a.tar/archive.old.Flac").unwrap(), "flac");
}

#[test]
fn infer_format_takes_text_after_last_dot() {
    assert_eq!(infer_format("path/to/track.MP3"), "mp3");
    assert_eq!(infer_format("a.b.c"), "c");
}

#[test]
fn infer_format_without_dot_lowercases_whole_path() {
    assert_eq!(infer_format("NoExt"), "noext");
}

#[test]
fn probe_failure_end_of_stream_is_corruption() {
    let err = classify_probe_failure("wav", "reached end of stream early");
    match &err {
        FingerprintError::InvalidAudio(m) => {
            assert_eq!(
                m,
                "File appears corrupted or truncated (wav): reached end of stream early"
            );
        },
        other => panic!("unexpected error kind: {:?}", other),
    }
}

#[test]
fn probe_failure_truncated_is_corruption() {
    assert!(matches!(
        classify_probe_failure("flac", "stream truncated"),
        FingerprintError::InvalidAudio(_)
    ));
    assert!(matches!(
        classify_probe_failure("flac", "unexpected end of file"),
        FingerprintError::InvalidAudio(_)
    ));
}

#[test]
fn probe_failure_otherwise_unsupported() {
    let err = classify_probe_failure("mp3", "no reader claimed the stream");
    match &err {
        FingerprintError::UnsupportedFormat(m) => {
            assert_eq!(m, "Failed to probe format 'mp3': no reader claimed the stream");
        },
        other => panic!("unexpected error kind: {:?}", other),
    }
    assert_eq!(err.status_code(), 415);
}
