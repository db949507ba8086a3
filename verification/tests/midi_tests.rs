use midihid::midi::MidiMessage;
use midihid::midi::classify;

#[test]
fn note_on_messages_are_recognized() {
    assert_eq!(classify(&[0x90, 36, 50]), MidiMessage::NoteOn { note: 36, velocity: 50 });
    assert_eq!(classify(&[0x90, 127, 127]), MidiMessage::NoteOn { note: 127, velocity: 127 });
}

#[test]
fn note_off_messages_are_recognized() {
    assert_eq!(classify(&[0x80, 36, 0]), MidiMessage::NoteOff { note: 36, velocity: 0 });
    assert_eq!(classify(&[0x80, 84, 64]), MidiMessage::NoteOff { note: 84, velocity: 64 });
}

#[test]
fn timing_clock_is_recognized_alone() {
    assert_eq!(classify(&[0xF8]), MidiMessage::TimingClock);
    assert_eq!(classify(&[0xF8, 0]), MidiMessage::Unrecognized);
}

#[test]
fn other_byte_patterns_are_noise() {
    assert_eq!(classify(&[]), MidiMessage::Unrecognized);
    assert_eq!(classify(&[0x90]), MidiMessage::Unrecognized);
    assert_eq!(classify(&[0x90, 36]), MidiMessage::Unrecognized);
    assert_eq!(classify(&[0x90, 36, 50, 0]), MidiMessage::Unrecognized);
    assert_eq!(classify(&[0xA0, 36, 50]), MidiMessage::Unrecognized);
    assert_eq!(classify(&[0xB0, 1, 2]), MidiMessage::Unrecognized);
}
