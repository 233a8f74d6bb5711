use fingerprint_server::bands::band_bin_range;
use fingerprint_server::bands::band_high_hz;
use fingerprint_server::bands::band_low_hz;
use fingerprint_server::framing::chunk_count;
use fingerprint_server::framing::frame_count;
use fingerprint_server::framing::frame_fill;
use fingerprint_server::framing::full_frame_count;

#[test]
fn frame_counts_for_exact_one_frame() {
    assert_eq!(frame_count(2048), 3);
    assert_eq!(full_frame_count(2048), 1);
}

#[test]
fn no_frames_below_half_frame() {
    assert_eq!(frame_count(1023), 0);
    assert_eq!(frame_count(1024), 1);
    assert_eq!(full_frame_count(2047), 0);
}

#[test]
fn two_seconds_of_48k_frames() {
    assert_eq!(frame_count(96000), (96000 - 1024) / 512 + 1);
    assert_eq!(full_frame_count(96000), (96000 - 2048) / 512 + 1);
}

#[test]
fn tail_frame_is_zero_padded() {
    // third frame of a 2048-sample buffer starts at 1024 and takes the rest
    let (start, take, pad) = frame_fill(2, 2048);
    assert_eq!(start, 1024);
    assert_eq!(take, 1024);
    assert_eq!(pad, 1024);
    // first frame is full
    assert_eq!(frame_fill(0, 2048), (0, 2048, 0));
}

#[test]
fn chunk_counts() {
    assert_eq!(chunk_count(0, 4410), 0);
    assert_eq!(chunk_count(4410, 4410), 1);
    assert_eq!(chunk_count(4411, 4410), 2);
    assert_eq!(chunk_count(44100, 4410), 10);
}

#[test]
fn band_edges_tile_the_audible_range() {
    let lows = [20u64, 60, 250, 500, 2000, 4000, 6000];
    let highs = [60u64, 250, 500, 2000, 4000, 6000, 20000];
    for b in 0..7usize {
        assert_eq!(band_low_hz(b), lows[b]);
        assert_eq!(band_high_hz(b), highs[b]);
    }
}

#[test]
fn sub_bass_bins_at_44100() {
    // bins 1 and 2 sit at 21.5 Hz and 43.1 Hz; bin 3 is already 64.6 Hz
    assert_eq!(band_bin_range(0, 44100), (1, 3));
}

#[test]
fn air_band_bins_at_44100() {
    assert_eq!(band_bin_range(6, 44100), (279, 929));
}

#[test]
fn air_band_is_empty_at_8k() {
    // the Nyquist frequency of 8 kHz audio is 4 kHz: nothing reaches 6 kHz
    let (lo, hi) = band_bin_range(6, 8000);
    assert_eq!(lo, hi);
}

#[test]
fn band_ranges_are_contiguous_at_48k() {
    let mut prev_hi = None;
    for b in 0..7usize {
        let (lo, hi) = band_bin_range(b, 48000);
        assert!(lo <= hi);
        if let Some(p) = prev_hi {
            assert_eq!(lo, p);
        }
        prev_hi = Some(hi);
    }
}
