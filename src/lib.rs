//! Pitch-to-MIDI conversion: peak picking on a magnitude spectrum, mapping
//! of bins to frequencies and of frequencies to MIDI note numbers, the note
//! tracker that turns a stream of pitch estimates into well-paired NoteOn and
//! NoteOff messages, the ring that frames captured samples, and the choice of
//! input device and stream configuration.

pub mod analysis;
pub mod audio;
pub mod framer;
pub mod midi;
pub mod pitch;
pub mod tracker;
