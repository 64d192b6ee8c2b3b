use dynth::engine::{DeckVoices, NoteStart};
use dynth::envelope::Stage;
use dynth::midi::{DeckId, MidiEvent};
use dynth::voice::{VoiceBank, VoiceSlot, MAX_VOICES};

#[test]
fn voice_slot_note_on_sets_note_and_active() {
    let mut v = VoiceSlot::new();
    assert!(!v.active);
    assert!(v.is_done());
    v.note_on(69);
    assert!(v.active);
    assert_eq!(v.note, 69);
    assert_eq!(v.stage, Stage::Attack);
    assert!(!v.is_done());
    v.note_off();
    assert_eq!(v.stage, Stage::Release);
}

#[test]
fn bank_has_eight_silent_voices() {
    let bank = VoiceBank::new();
    assert_eq!(bank.len(), MAX_VOICES);
    assert_eq!(MAX_VOICES, 8);
    for i in 0..MAX_VOICES {
        assert!(!bank.is_active(i));
        assert_eq!(bank.stage(i), Stage::Idle);
    }
    assert_eq!(bank.find_free_voice(), Some(0));
}

#[test]
fn bank_note_on_takes_first_free_voice() {
    let mut bank = VoiceBank::new();
    assert_eq!(bank.note_on(60), 0);
    assert_eq!(bank.note_on(62), 1);
    assert_eq!(bank.note_on(64), 2);
    assert_eq!(bank.slot(1).note, 62);
    assert!(bank.is_active(2));
    assert_eq!(bank.find_free_voice(), Some(3));
}

#[test]
fn bank_steals_voice_zero_when_full() {
    let mut bank = VoiceBank::new();
    for k in 0..8u8 {
        assert_eq!(bank.note_on(60 + k), k as usize);
    }
    assert_eq!(bank.find_free_voice(), None);
    assert_eq!(bank.note_on(90), 0);
    assert_eq!(bank.slot(0).note, 90);
    assert_eq!(bank.slot(0).stage, Stage::Attack);
    assert_eq!(bank.slot(1).note, 61);
}

#[test]
fn bank_reuses_voice_after_release_finishes() {
    let mut bank = VoiceBank::new();
    bank.note_on(60);
    bank.note_on(62);
    bank.note_off(60);
    assert_eq!(bank.stage(0), Stage::Release);
    assert!(bank.is_active(0));
    assert_eq!(bank.find_free_voice(), Some(2));
    bank.advance(0, true);
    assert!(!bank.is_active(0));
    assert_eq!(bank.stage(0), Stage::Idle);
    assert_eq!(bank.find_free_voice(), Some(0));
    assert_eq!(bank.note_on(67), 0);
}

#[test]
fn bank_note_off_releases_only_that_note() {
    let mut bank = VoiceBank::new();
    bank.note_on(60);
    bank.note_on(64);
    bank.note_on(60);
    bank.note_off(60);
    assert_eq!(bank.stage(0), Stage::Release);
    assert_eq!(bank.stage(1), Stage::Attack);
    assert_eq!(bank.stage(2), Stage::Release);
    bank.note_off(60);
    assert_eq!(bank.stage(0), Stage::Release);
    assert_eq!(bank.stage(1), Stage::Attack);
}

#[test]
fn bank_advance_follows_envelope() {
    let mut bank = VoiceBank::new();
    bank.note_on(60);
    bank.advance(0, false);
    assert_eq!(bank.stage(0), Stage::Attack);
    bank.advance(0, true);
    assert_eq!(bank.stage(0), Stage::Decay);
    bank.advance(0, true);
    assert_eq!(bank.stage(0), Stage::Sustain);
    bank.advance(0, true);
    assert_eq!(bank.stage(0), Stage::Sustain);
    assert!(bank.is_active(0));
}

#[test]
fn bank_apply_event_reports_voice() {
    let mut bank = VoiceBank::new();
    assert_eq!(bank.apply_event(MidiEvent::NoteOn { deck: 0, note: 60, velocity: 100 }), Some(0));
    assert_eq!(bank.apply_event(MidiEvent::NoteOff { deck: 0, note: 60 }), None);
    assert_eq!(bank.stage(0), Stage::Release);
}

#[test]
fn decks_route_note_events_by_deck() {
    let mut decks = DeckVoices::new();
    let r = decks.handle_event(MidiEvent::NoteOn { deck: 1, note: 72, velocity: 90 });
    assert_eq!(r, Some(NoteStart { deck: DeckId::B, slot: 0, note: 72 }));
    assert!(decks.bank(DeckId::B).is_active(0));
    assert!(!decks.bank(DeckId::A).is_active(0));

    let r = decks.handle_event(MidiEvent::NoteOn { deck: 0, note: 48, velocity: 90 });
    assert_eq!(r, Some(NoteStart { deck: DeckId::A, slot: 0, note: 48 }));
    let r = decks.handle_event(MidiEvent::NoteOn { deck: 5, note: 50, velocity: 90 });
    assert_eq!(r, Some(NoteStart { deck: DeckId::A, slot: 1, note: 50 }));

    assert_eq!(decks.handle_event(MidiEvent::NoteOff { deck: 1, note: 72 }), None);
    assert_eq!(decks.bank(DeckId::B).stage(0), Stage::Release);
    assert_eq!(decks.bank(DeckId::A).stage(0), Stage::Attack);
}

#[test]
fn decks_advance_only_their_deck() {
    let mut decks = DeckVoices::new();
    decks.handle_event(MidiEvent::NoteOn { deck: 0, note: 48, velocity: 90 });
    decks.handle_event(MidiEvent::NoteOn { deck: 1, note: 48, velocity: 90 });
    decks.advance(DeckId::A, 0, true);
    assert_eq!(decks.bank(DeckId::A).stage(0), Stage::Decay);
    assert_eq!(decks.bank(DeckId::B).stage(0), Stage::Attack);
}
