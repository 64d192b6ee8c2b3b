use vstd::prelude::*;

verus! {

/// A note event on its way from a MIDI port to the audio engine.
/// `deck` is 1 for Deck B; any other value means Deck A.
#[derive(Clone, Copy, PartialEq, Eq, Debug, Structural)]
pub enum MidiEvent {
    NoteOn { deck: u8, note: u8, velocity: u8 },
    NoteOff { deck: u8, note: u8 },
}

/// One of the two synthesizer decks.
#[derive(Clone, Copy, PartialEq, Eq, Debug, Structural)]
pub enum DeckId {
    A,
    B,
}

/// What a raw MIDI message asks of the synthesizer.
#[derive(Clone, Copy, PartialEq, Eq, Debug, Structural)]
pub enum MidiMessage {
    /// A note on or off, already bound to a deck.
    Note(MidiEvent),
    /// A control change on MIDI channel `channel` (0-based).
    ControlChange { channel: u8, cc: u8, value: u8 },
    /// Too short, or a kind of message the synthesizer does not use.
    Ignored,
}

/// The high nibble of a status byte: the kind of message.
pub open spec fn status_kind(status: u8) -> u8 {
    status & 0xF0u8
}

/// The low nibble of a status byte: the 0-based MIDI channel.
pub open spec fn status_channel(status: u8) -> u8 {
    status & 0x0Fu8
}

/// Notes on MIDI channel 1 (the second channel) play Deck B, all others Deck A.
pub open spec fn deck_of_channel(channel: u8) -> u8 {
    if channel == 1 {
        1
    } else {
        0
    }
}

/// The deck that an event is meant for.
pub open spec fn spec_event_deck(event: MidiEvent) -> DeckId {
    match event {
        MidiEvent::NoteOn { deck, .. } => if deck == 1 {
            DeckId::B
        } else {
            DeckId::A
        },
        MidiEvent::NoteOff { deck, .. } => if deck == 1 {
            DeckId::B
        } else {
            DeckId::A
        },
    }
}

/// The meaning of a raw MIDI message. A note-on with velocity 0 is a note-off.
pub open spec fn spec_parse_message(msg: Seq<u8>) -> MidiMessage {
    if msg.len() < 2 {
        MidiMessage::Ignored
    } else {
        let kind = status_kind(msg[0]);
        let channel = status_channel(msg[0]);
        let deck = deck_of_channel(channel);
        if kind == 0x90 && msg.len() >= 3 && msg[2] > 0 {
            MidiMessage::Note(MidiEvent::NoteOn { deck, note: msg[1], velocity: msg[2] })
        } else if kind == 0x80 || kind == 0x90 {
            MidiMessage::Note(MidiEvent::NoteOff { deck, note: msg[1] })
        } else if kind == 0xB0 {
            MidiMessage::ControlChange { channel, cc: msg[1], value: msg[2] }
        } else {
            MidiMessage::Ignored
        }
    }
}

/// A control change needs a data byte after the controller number.
pub open spec fn message_is_complete(msg: Seq<u8>) -> bool {
    !(msg.len() == 2 && status_kind(msg[0]) == 0xB0)
}

/// Decodes one raw MIDI message into what it asks of the synthesizer.
pub fn parse_message(msg: &[u8]) -> (r: MidiMessage)
    requires
        message_is_complete(msg@),
    ensures
        r == spec_parse_message(msg@),
{
    if msg.len() < 2 {
        return MidiMessage::Ignored;
    }
    let status = msg[0];
    let kind = status & 0xF0u8;
    let channel = status & 0x0Fu8;
    let deck: u8 = if channel == 1 {
        1
    } else {
        0
    };
    if kind == 0x90 && msg.len() >= 3 && msg[2] > 0 {
        MidiMessage::Note(MidiEvent::NoteOn { deck, note: msg[1], velocity: msg[2] })
    } else if kind == 0x80 || kind == 0x90 {
        MidiMessage::Note(MidiEvent::NoteOff { deck, note: msg[1] })
    } else if kind == 0xB0 {
        MidiMessage::ControlChange { channel, cc: msg[1], value: msg[2] }
    } else {
        MidiMessage::Ignored
    }
}

/// The deck that an event is meant for: deck 1 is Deck B, anything else Deck A.
pub fn event_deck(event: &MidiEvent) -> (d: DeckId)
    ensures
        d == spec_event_deck(*event),
{
    match event {
        MidiEvent::NoteOn { deck, .. } => if *deck == 1 {
            DeckId::B
        } else {
            DeckId::A
        },
        MidiEvent::NoteOff { deck, .. } => if *deck == 1 {
            DeckId::B
        } else {
            DeckId::A
        },
    }
}

/// Signed jog-wheel movement of a relative control value centred at 64,
/// the value read as a signed byte less 64.
pub open spec fn spec_jog_delta(raw: u8) -> int {
    if raw < 128 {
        raw - 64
    } else {
        raw - 256 - 64
    }
}

/// Relative jog-wheel movement: 65..=127 turn forward, 0..=63 backward,
/// 64 is standing still. Values 128..=191 would overflow the signed byte.
pub fn jog_delta(raw: u8) -> (d: i8)
    requires
        raw < 128 || raw >= 192,
    ensures
        d == spec_jog_delta(raw),
        raw == 64 ==> d == 0,
        64 < raw < 128 ==> d > 0,
        raw < 64 ==> d < 0,
{
    if raw < 128 {
        (raw as i16 - 64) as i8
    } else {
        (raw as i16 - 320) as i8
    }
}

/// A raw message decoded in terms of its bytes: the status byte's upper
/// nibble (`msg[0] / 16`) is the kind and its whole lower nibble (`msg[0] % 16`)
/// the 0-based channel. A control change keeps that channel; a note goes to
/// deck 1 exactly when that channel is 1. Note-on (kind 9) with a velocity
/// byte above 0 starts a note; any other note-on or a note-off (kind 8) stops it.
pub proof fn lemma_parse_by_nibbles(msg: Seq<u8>)
    requires
        msg.len() >= 2,
        message_is_complete(msg),
    ensures
        ({
            let kind = msg[0] / 16;
            let channel = msg[0] % 16;
            let deck: u8 = if channel == 1 {
                1
            } else {
                0
            };
            &&& kind == 9 && msg.len() >= 3 && msg[2] > 0 ==> spec_parse_message(msg)
                == MidiMessage::Note(MidiEvent::NoteOn { deck, note: msg[1], velocity: msg[2] })
            &&& (kind == 8 || (kind == 9 && !(msg.len() >= 3 && msg[2] > 0))) ==> spec_parse_message(
                msg,
            ) == MidiMessage::Note(MidiEvent::NoteOff { deck, note: msg[1] })
            &&& kind == 11 ==> spec_parse_message(msg) == MidiMessage::ControlChange {
                channel: channel as u8,
                cc: msg[1],
                value: msg[2],
            }
            &&& kind != 8 && kind != 9 && kind != 11 ==> spec_parse_message(msg)
                == MidiMessage::Ignored
        }),
        forall|c: u8, cc: u8, v: u8|
            spec_parse_message(msg) == (MidiMessage::ControlChange { channel: c, cc, value: v })
                ==> c == msg[0] % 16,
{
    let b = msg[0];
    assert(b & 0x0Fu8 == b % 16) by (bit_vector);
    assert(b & 0xF0u8 == (b / 16) * 16) by (bit_vector);
    assert((b & 0xF0u8 == 0x90u8) == (b / 16 == 9)) by (bit_vector);
    assert((b & 0xF0u8 == 0x80u8) == (b / 16 == 8)) by (bit_vector);
    assert((b & 0xF0u8 == 0xB0u8) == (b / 16 == 11)) by (bit_vector);
}

/// A note event goes to Deck B exactly when its deck field is 1, and a note-off
/// goes to the same deck as a note-on with the same deck field.
pub proof fn lemma_event_deck_by_field(deck: u8, note: u8, velocity: u8)
    ensures
        spec_event_deck(MidiEvent::NoteOff { deck, note }) == spec_event_deck(
            MidiEvent::NoteOn { deck, note, velocity },
        ),
        (spec_event_deck(MidiEvent::NoteOn { deck, note, velocity }) == DeckId::B) <==> deck == 1,
        (spec_event_deck(MidiEvent::NoteOff { deck, note }) == DeckId::B) <==> deck == 1,
        (spec_event_deck(MidiEvent::NoteOff { deck, note }) == DeckId::A) <==> deck != 1,
{
}

} // verus!
