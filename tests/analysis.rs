use pitch_to_midi::analysis::{find_maxima, recalculate_to_freq};

#[test]
fn all_zero_spectrum_gives_placeholder() {
    let s = vec![0u64; 16];
    assert_eq!(find_maxima(&s, 0), (0, 0));
    assert_eq!(find_maxima(&s, 250_000), (0, 0));
}

#[test]
fn quiet_spectrum_gives_placeholder() {
    let s = vec![5u64, 200, 249_999, 7, 0, 3, 1, 2];
    assert_eq!(find_maxima(&s, 250_000), (0, 0));
}

#[test]
fn threshold_is_strict() {
    let s = vec![0u64, 250_000, 0, 0, 0, 0, 0, 0];
    assert_eq!(find_maxima(&s, 250_000), (0, 0));
    assert_eq!(find_maxima(&s, 249_999), (250_000, 1));
}

#[test]
fn loudest_bin_wins_first_on_ties() {
    let s = vec![1u64, 300, 900, 400, 900, 2, 3, 4];
    assert_eq!(find_maxima(&s, 250), (900, 2));
}

#[test]
fn mirror_half_is_ignored() {
    let s = vec![0u64, 0, 300, 0, 0, 0, 5_000, 0];
    assert_eq!(find_maxima(&s, 100), (300, 2));
    let t = vec![0u64, 0, 0, 0, 0, 9_000, 0, 0];
    assert_eq!(find_maxima(&t, 100), (0, 0));
}

#[test]
fn dc_only_spectrum_peaks_at_zero_hertz() {
    let s = vec![800_000u64, 0, 0, 0, 0, 0, 0, 0];
    let (amp, bin) = find_maxima(&s, 250_000);
    assert_eq!((amp, bin), (800_000, 0));
    let freq = recalculate_to_freq(bin, 8, 48_000);
    assert_eq!(freq, 0);
    assert!(pitch_to_midi::midi::Note::new(freq, amp).is_dead());
}

#[test]
fn smallest_spectrum() {
    assert_eq!(find_maxima(&[7, 9], 1), (7, 0));
    assert_eq!(find_maxima(&[7, 9], 7), (0, 0));
}

#[test]
fn bin_frequencies() {
    assert_eq!(recalculate_to_freq(0, 8192, 48_000), 0);
    assert_eq!(recalculate_to_freq(1, 8192, 48_000), 5_859);
    assert_eq!(recalculate_to_freq(75, 8192, 48_000), 439_453);
    assert_eq!(recalculate_to_freq(4095, 8192, 48_000), 23_994_140);
    assert_eq!(recalculate_to_freq(8191, 8192, u32::MAX), 4_294_443_007_000);
    assert_eq!(recalculate_to_freq(41, 4096, 44_100), 441_430);
}

#[test]
fn bin_frequencies_are_monotone() {
    let mut last = 0u64;
    for b in 0..4096usize {
        let f = recalculate_to_freq(b, 4096, 48_000);
        assert!(f >= last);
        last = f;
    }
}

#[test]
fn analyze_concert_pitch_frame() {
    let mut s = vec![3u64; 8192];
    s[75] = 300_000;
    s[8192 - 75] = 300_000;
    let note = pitch_to_midi::analysis::analyze(&s, 250_000, 48_000);
    assert_eq!(note, pitch_to_midi::midi::Note::new(439_453, 300_000));
    assert_eq!(note.key(), 69);
    assert!(!note.is_dead());
}

#[test]
fn analyze_quiet_and_dc_frames_are_dead() {
    let quiet = vec![249_999u64; 64];
    let q = pitch_to_midi::analysis::analyze(&quiet, 250_000, 48_000);
    assert_eq!(q, pitch_to_midi::midi::Note::new(0, 0));
    assert!(q.is_dead());
    let mut dc = vec![0u64; 64];
    dc[0] = 900_000;
    let d = pitch_to_midi::analysis::analyze(&dc, 250_000, 48_000);
    assert_eq!(d, pitch_to_midi::midi::Note::new(0, 900_000));
    assert!(d.is_dead());
    let zeros = vec![0u64; 64];
    assert!(pitch_to_midi::analysis::analyze(&zeros, 0, 44_100).is_dead());
}
