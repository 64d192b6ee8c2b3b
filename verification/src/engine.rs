use vstd::prelude::*;
use crate::midi::{DeckId, MidiEvent, spec_event_deck, event_deck};
use crate::voice::{
    VoiceBank, VoiceSlot, bank_wf, chosen_slot, spec_bank_note_on, spec_bank_note_off,
    stepped_slot,
};

verus! {

/// A note that started on a voice; the audio side tunes that voice and
/// restarts its oscillator.
#[derive(Clone, Copy, PartialEq, Eq, Debug, Structural)]
pub struct NoteStart {
    pub deck: DeckId,
    pub slot: usize,
    pub note: u8,
}

/// The voice bookkeeping of both decks.
pub struct DeckVoices {
    deck_a: VoiceBank,
    deck_b: VoiceBank,
}

/// The voices of a deck after a note event for it.
pub open spec fn spec_after_event(s: Seq<VoiceSlot>, event: MidiEvent) -> Seq<VoiceSlot> {
    match event {
        MidiEvent::NoteOn { note, .. } => spec_bank_note_on(s, note),
        MidiEvent::NoteOff { note, .. } => spec_bank_note_off(s, note),
    }
}

impl DeckVoices {
    pub closed spec fn voices(&self, deck: DeckId) -> Seq<VoiceSlot> {
        match deck {
            DeckId::A => self.deck_a@,
            DeckId::B => self.deck_b@,
        }
    }

    pub open spec fn wf(&self) -> bool {
        bank_wf(self.voices(DeckId::A)) && bank_wf(self.voices(DeckId::B))
    }

    pub fn new() -> (v: DeckVoices)
        ensures
            v.wf(),
            v.voices(DeckId::A) == VoiceBank::new_spec(),
            v.voices(DeckId::B) == VoiceBank::new_spec(),
    {
        DeckVoices { deck_a: VoiceBank::new(), deck_b: VoiceBank::new() }
    }

    pub fn bank(&self, deck: DeckId) -> (b: &VoiceBank)
        ensures
            b@ == self.voices(deck),
    {
        match deck {
            DeckId::A => &self.deck_a,
            DeckId::B => &self.deck_b,
        }
    }

    /// Hands a note event to its deck: deck 1 plays on Deck B, anything else
    /// on Deck A. The other deck is left alone. A note-on reports the voice it took.
    pub fn handle_event(&mut self, event: MidiEvent) -> (r: Option<NoteStart>)
        requires
            old(self).wf(),
        ensures
            final(self).wf(),
            ({
                let d = spec_event_deck(event);
                let other = if d == DeckId::A {
                    DeckId::B
                } else {
                    DeckId::A
                };
                &&& final(self).voices(d) == spec_after_event(old(self).voices(d), event)
                &&& final(self).voices(other) == old(self).voices(other)
                &&& match event {
                    MidiEvent::NoteOn { note, .. } => r == Some(
                        NoteStart { deck: d, slot: chosen_slot(old(self).voices(d)) as usize, note },
                    ),
                    MidiEvent::NoteOff { .. } => r is None,
                }
            }),
    {
        let d = event_deck(&event);
        let slot = match d {
            DeckId::A => self.deck_a.apply_event(event),
            DeckId::B => self.deck_b.apply_event(event),
        };
        match event {
            MidiEvent::NoteOn { note, .. } => match slot {
                Some(s) => Some(NoteStart { deck: d, slot: s, note }),
                None => None,
            },
            MidiEvent::NoteOff { .. } => None,
        }
    }

    /// Advances voice `slot` of `deck` by one sample.
    pub fn advance(&mut self, deck: DeckId, slot: usize, reached: bool)
        requires
            old(self).wf(),
            slot < old(self).voices(deck).len(),
        ensures
            final(self).wf(),
            final(self).voices(deck) == old(self).voices(deck).update(
                slot as int,
                stepped_slot(old(self).voices(deck)[slot as int], reached),
            ),
            deck == DeckId::A ==> final(self).voices(DeckId::B) == old(self).voices(DeckId::B),
            deck == DeckId::B ==> final(self).voices(DeckId::A) == old(self).voices(DeckId::A),
    {
        match deck {
            DeckId::A => self.deck_a.advance(slot, reached),
            DeckId::B => self.deck_b.advance(slot, reached),
        }
    }
}

} // verus!
