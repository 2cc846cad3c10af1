use pitch_to_midi::midi::Note;
use pitch_to_midi::pitch::freq_to_midi_note;

#[test]
fn concert_pitch_and_octaves() {
    assert_eq!(freq_to_midi_note(440_000), 69);
    assert_eq!(freq_to_midi_note(880_000), 81);
    assert_eq!(freq_to_midi_note(220_000), 57);
    assert_eq!(Note::new(440_000, 300_000).key(), 69);
}

#[test]
fn note_edges_round_half_up() {
    // 440 Hz * 2^(-1/24) = 427.474... Hz is the lower edge of note 69
    assert_eq!(freq_to_midi_note(427_475), 69);
    assert_eq!(freq_to_midi_note(427_474), 68);
    assert_eq!(freq_to_midi_note(261_626), 60);
    assert_eq!(freq_to_midi_note(8_416), 1);
    assert_eq!(freq_to_midi_note(8_415), 0);
}

#[test]
fn out_of_range_frequencies_are_held() {
    assert_eq!(freq_to_midi_note(0), 0);
    assert_eq!(freq_to_midi_note(1), 0);
    assert_eq!(freq_to_midi_note(12_186_755), 127);
    assert_eq!(freq_to_midi_note(12_186_754), 126);
    assert_eq!(freq_to_midi_note(24_000_000), 127);
    assert_eq!(freq_to_midi_note(u64::MAX), 127);
}

#[test]
fn matches_logarithmic_formula() {
    let mut f: u64 = 8_500;
    while f < 12_000_000 {
        let exact = 12.0 * (f as f64 / 440_000.0).log2() + 69.0;
        let expected = exact.round().clamp(0.0, 127.0) as u8;
        assert_eq!(freq_to_midi_note(f), expected, "at {} mHz", f);
        f = f + f / 997 + 1;
    }
}
