use dynth::midi::{event_deck, jog_delta, parse_message, DeckId, MidiEvent, MidiMessage};

#[test]
fn parse_note_on_channel_one_is_deck_a() {
    assert_eq!(
        parse_message(&[0x90, 60, 100]),
        MidiMessage::Note(MidiEvent::NoteOn { deck: 0, note: 60, velocity: 100 })
    );
}

#[test]
fn parse_note_on_channel_two_is_deck_b() {
    assert_eq!(
        parse_message(&[0x91, 64, 1]),
        MidiMessage::Note(MidiEvent::NoteOn { deck: 1, note: 64, velocity: 1 })
    );
}

#[test]
fn parse_other_channels_are_deck_a() {
    assert_eq!(
        parse_message(&[0x9F, 64, 30]),
        MidiMessage::Note(MidiEvent::NoteOn { deck: 0, note: 64, velocity: 30 })
    );
}

#[test]
fn parse_note_on_zero_velocity_is_note_off() {
    assert_eq!(
        parse_message(&[0x91, 64, 0]),
        MidiMessage::Note(MidiEvent::NoteOff { deck: 1, note: 64 })
    );
}

#[test]
fn parse_short_note_on_is_note_off() {
    assert_eq!(parse_message(&[0x90, 64]), MidiMessage::Note(MidiEvent::NoteOff { deck: 0, note: 64 }));
}

#[test]
fn parse_note_off() {
    assert_eq!(
        parse_message(&[0x81, 50, 40]),
        MidiMessage::Note(MidiEvent::NoteOff { deck: 1, note: 50 })
    );
}

#[test]
fn parse_control_change() {
    assert_eq!(
        parse_message(&[0xB6, 31, 127]),
        MidiMessage::ControlChange { channel: 6, cc: 31, value: 127 }
    );
}

#[test]
fn parse_ignores_short_and_other_messages() {
    assert_eq!(parse_message(&[]), MidiMessage::Ignored);
    assert_eq!(parse_message(&[0x90]), MidiMessage::Ignored);
    assert_eq!(parse_message(&[0xE0, 0, 64]), MidiMessage::Ignored);
    assert_eq!(parse_message(&[0xF8, 0]), MidiMessage::Ignored);
}

#[test]
fn event_deck_one_is_deck_b() {
    assert_eq!(event_deck(&MidiEvent::NoteOn { deck: 1, note: 1, velocity: 1 }), DeckId::B);
    assert_eq!(event_deck(&MidiEvent::NoteOff { deck: 1, note: 1 }), DeckId::B);
    assert_eq!(event_deck(&MidiEvent::NoteOn { deck: 0, note: 1, velocity: 1 }), DeckId::A);
    assert_eq!(event_deck(&MidiEvent::NoteOff { deck: 7, note: 1 }), DeckId::A);
}

#[test]
fn jog_delta_neutral_forward_backward() {
    assert_eq!(jog_delta(64), 0);
    assert_eq!(jog_delta(100), 36);
    assert_eq!(jog_delta(127), 63);
    assert_eq!(jog_delta(65), 1);
    assert_eq!(jog_delta(63), -1);
    assert_eq!(jog_delta(1), -63);
    assert_eq!(jog_delta(0), -64);
}

#[test]
fn jog_delta_reads_high_values_as_signed() {
    assert_eq!(jog_delta(192), -128);
    assert_eq!(jog_delta(255), -65);
}
