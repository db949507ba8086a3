//! Classification of raw MIDI messages. The engine recognizes exactly three
//! shapes: note-on, note-off, and the timing clock it deliberately ignores;
//! every other byte pattern is noise on the wire.

use vstd::prelude::*;

verus! {

/// What a raw MIDI message means to the engine.
#[derive(Clone, Copy, Debug, PartialEq, Eq, Structural)]
pub enum MidiMessage {
    NoteOn { note: u8, velocity: u8 },
    NoteOff { note: u8, velocity: u8 },
    TimingClock,
    Unrecognized,
}

/// The meaning of a raw message: `[0x90, note, velocity]` is note-on,
/// `[0x80, note, velocity]` is note-off, `[0xF8]` is the timing clock, and
/// anything else is unrecognized.
pub open spec fn spec_classify(bytes: Seq<u8>) -> MidiMessage {
    if bytes.len() == 3 && bytes[0] == 0x90u8 {
        MidiMessage::NoteOn { note: bytes[1], velocity: bytes[2] }
    } else if bytes.len() == 3 && bytes[0] == 0x80u8 {
        MidiMessage::NoteOff { note: bytes[1], velocity: bytes[2] }
    } else if bytes.len() == 1 && bytes[0] == 0xF8u8 {
        MidiMessage::TimingClock
    } else {
        MidiMessage::Unrecognized
    }
}

/// Classify one raw MIDI message.
pub fn classify(bytes: &[u8]) -> (m: MidiMessage)
    ensures
        m == spec_classify(bytes@),
{
    if bytes.len() == 3 && bytes[0] == 0x90 {
        MidiMessage::NoteOn { note: bytes[1], velocity: bytes[2] }
    } else if bytes.len() == 3 && bytes[0] == 0x80 {
        MidiMessage::NoteOff { note: bytes[1], velocity: bytes[2] }
    } else if bytes.len() == 1 && bytes[0] == 0xF8 {
        MidiMessage::TimingClock
    } else {
        MidiMessage::Unrecognized
    }
}

} // verus!
