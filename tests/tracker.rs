use pitch_to_midi::midi::{Message, Note, NoteEvent};
use pitch_to_midi::tracker::Tracker;

fn feed(notes: &[Note]) -> Vec<Vec<u8>> {
    let mut t = Tracker::new();
    let mut out = Vec::new();
    for n in notes {
        for m in t.step(*n) {
            out.push(m.bytes());
        }
    }
    out
}

fn a4(amp: u64) -> Note {
    Note::new(440_000, amp)
}

fn a5(amp: u64) -> Note {
    Note::new(880_000, amp)
}

fn silence() -> Note {
    Note::new(0, 0)
}

#[test]
fn repeated_pitch_does_not_retrigger() {
    let out = feed(&[a4(300_000), a4(300_000), silence()]);
    assert_eq!(out, vec![vec![0x90, 69, 0x64], vec![0x80, 69, 0x64]]);
}

#[test]
fn pitch_change_releases_then_strikes() {
    let out = feed(&[a4(300_000), a5(300_000), silence()]);
    assert_eq!(
        out,
        vec![
            vec![0x90, 69, 0x64],
            vec![0x80, 69, 0x64],
            vec![0x90, 81, 0x64],
            vec![0x80, 81, 0x64],
        ]
    );
}

#[test]
fn louder_same_pitch_retriggers() {
    let out = feed(&[a4(300_000), a4(500_000)]);
    assert_eq!(
        out,
        vec![vec![0x90, 69, 0x64], vec![0x80, 69, 0x64], vec![0x90, 69, 0x64]]
    );
}

#[test]
fn leading_silence_sends_nothing() {
    let out = feed(&[silence(), silence(), silence()]);
    assert!(out.is_empty());
    let mut t = Tracker::new();
    assert!(t.step(silence()).is_empty());
    assert_eq!(t.playing(), None);
}

#[test]
fn quieter_same_pitch_holds() {
    let mut t = Tracker::new();
    assert_eq!(t.step(a4(300_000)).len(), 1);
    assert!(t.step(a4(299_999)).is_empty());
    assert!(t.step(a4(300_000)).is_empty());
    assert_eq!(t.playing(), Some(69));
    // the held note keeps the amplitude it was struck with
    assert_eq!(t.step(a4(300_001)).len(), 2);
}

#[test]
fn dead_pitch_releases_once() {
    let mut t = Tracker::new();
    t.step(a5(1_000));
    let off = t.step(silence());
    assert_eq!(off, vec![Message::note_off(81)]);
    assert!(t.step(silence()).is_empty());
    assert_eq!(t.playing(), None);
}

#[test]
fn quiet_but_nonzero_pitch_is_dead() {
    let mut t = Tracker::new();
    assert!(t.step(Note::new(440_000, 9)).is_empty());
    assert_eq!(t.step(Note::new(440_000, 10)), vec![Message::note_on(69)]);
    assert_eq!(t.step(Note::new(440_000, 9)), vec![Message::note_off(69)]);
}

#[test]
fn release_silences_sounding_note() {
    let mut t = Tracker::new();
    assert!(t.release().is_empty());
    t.step(a4(300_000));
    assert_eq!(t.release(), vec![Message::note_off(69)]);
    assert_eq!(t.playing(), None);
}

#[test]
fn note_predicates() {
    assert!(silence().is_dead());
    assert!(Note::new(0, 900_000).is_dead());
    assert!(Note::new(440_000, 9).is_dead());
    assert!(!Note::new(440_000, 10).is_dead());
    assert!(a4(300_000).is_same(&a4(300_000)));
    assert!(a4(300_000).is_same(&a4(200_000)));
    assert!(!a4(300_000).is_same(&a4(300_001)));
    assert!(!a4(300_000).is_same(&a5(100)));
    assert!(a4(300_000).is_same(&Note::new(441_000, 100)));
}

#[test]
fn message_bytes() {
    assert_eq!(NoteEvent::NoteOn.value(), 0x90);
    assert_eq!(NoteEvent::NoteOff.value(), 0x80);
    assert_eq!(Message::note_on(60).bytes(), vec![0x90, 60, 0x64]);
    assert_eq!(Message::note_off(127).bytes(), vec![0x80, 127, 0x64]);
    assert_eq!(Message::note_on(1).event, NoteEvent::NoteOn);
}
