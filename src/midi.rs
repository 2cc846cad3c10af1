use vstd::prelude::*;
use crate::pitch::{freq_to_midi_note, key_of};

verus! {

/// Status byte of a NoteOn message on channel 0.
pub const NOTE_ON_STATUS: u8 = 0x90;

/// Status byte of a NoteOff message on channel 0.
pub const NOTE_OFF_STATUS: u8 = 0x80;

/// The fixed velocity sent with every NoteOn and NoteOff.
pub const VELOCITY: u8 = 0x64;

/// Amplitudes are fixed-point numbers in thousandths of a unit of DFT magnitude.
/// A note quieter than this (0.01) is dead.
pub const DEAD_LEVEL: u64 = 10;

/// One pitch estimate: the frequency of the chosen bin in millihertz and the
/// bin's magnitude in thousandths.
#[derive(Clone, Copy, Debug, PartialEq, Eq, Structural)]
pub struct Note {
    pub freq: u64,
    pub amp: u64,
}

impl Note {
    /// The MIDI note number this estimate quantizes to.
    pub open spec fn number(self) -> nat {
        key_of(self.freq as int)
    }

    /// A note is dead when it is too quiet to be voiced, or when it lies at
    /// zero frequency (the DC bin, or no bin at all).
    pub open spec fn dead(self) -> bool {
        self.amp < DEAD_LEVEL || self.freq == 0
    }

    /// `next` continues `self` when it quantizes to the same note number and is
    /// not louder: only a louder strike of the same pitch retriggers.
    pub open spec fn continued_by(self, next: Note) -> bool {
        self.number() == next.number() && next.amp <= self.amp
    }

    pub fn new(freq: u64, amp: u64) -> (r: Note)
        ensures
            r == (Note { freq, amp }),
    {
        Note { freq, amp }
    }

    pub fn key(&self) -> (r: u8)
        ensures
            r as nat == self.number(),
            r <= 127,
    {
        freq_to_midi_note(self.freq)
    }

    pub fn is_dead(&self) -> (r: bool)
        ensures
            r == self.dead(),
    {
        self.amp < DEAD_LEVEL || self.freq == 0
    }

    pub fn is_same(&self, other: &Note) -> (r: bool)
        ensures
            r == self.continued_by(*other),
    {
        self.key() == other.key() && other.amp <= self.amp
    }
}

/// The two kinds of message that are sent.
#[derive(Clone, Copy, Debug, PartialEq, Eq, Structural)]
pub enum NoteEvent {
    NoteOn,
    NoteOff,
}

impl NoteEvent {
    /// The status byte that starts a message of this kind.
    pub open spec fn status(self) -> u8 {
        match self {
            NoteEvent::NoteOn => NOTE_ON_STATUS,
            NoteEvent::NoteOff => NOTE_OFF_STATUS,
        }
    }

    pub fn value(&self) -> (r: u8)
        ensures
            r == self.status(),
    {
        match *self {
            NoteEvent::NoteOn => NOTE_ON_STATUS,
            NoteEvent::NoteOff => NOTE_OFF_STATUS,
        }
    }
}

/// One channel-voice message: a NoteOn or NoteOff for a note number.
#[derive(Clone, Copy, Debug, PartialEq, Eq, Structural)]
pub struct Message {
    pub event: NoteEvent,
    pub key: u8,
}

impl Message {
    /// The three bytes on the wire: status, note number, velocity.
    pub open spec fn wire(self) -> Seq<u8> {
        seq![self.event.status(), self.key, VELOCITY]
    }

    pub fn note_on(key: u8) -> (r: Message)
        ensures
            r == (Message { event: NoteEvent::NoteOn, key }),
    {
        Message { event: NoteEvent::NoteOn, key }
    }

    pub fn note_off(key: u8) -> (r: Message)
        ensures
            r == (Message { event: NoteEvent::NoteOff, key }),
    {
        Message { event: NoteEvent::NoteOff, key }
    }

    pub fn bytes(&self) -> (r: Vec<u8>)
        ensures
            r@ == self.wire(),
    {
        let r = vec![self.event.value(), self.key, VELOCITY];
        assert(r@ =~= self.wire());
        r
    }
}

} // verus!
