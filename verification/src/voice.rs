use vstd::prelude::*;
use crate::envelope::{Stage, spec_advance, spec_note_off};
use crate::midi::MidiEvent;

verus! {

/// Voices per deck.
pub const MAX_VOICES: usize = 8;

/// The bookkeeping of one voice: which note it plays, whether it sounds,
/// and the stage of its envelope.
#[derive(Clone, Copy, PartialEq, Eq, Debug, Structural)]
pub struct VoiceSlot {
    pub note: u8,
    pub active: bool,
    pub stage: Stage,
}

/// A voice that has never played.
pub open spec fn silent_slot() -> VoiceSlot {
    VoiceSlot { note: 0, active: false, stage: Stage::Idle }
}

/// A voice that just received a note-on.
pub open spec fn started_slot(note: u8) -> VoiceSlot {
    VoiceSlot { note, active: true, stage: Stage::Attack }
}

/// A voice can take a new note when it is not sounding or its envelope has finished.
pub open spec fn slot_is_free(v: VoiceSlot) -> bool {
    !v.active || v.stage == Stage::Idle
}

impl VoiceSlot {
    pub fn new() -> (v: VoiceSlot)
        ensures
            v == silent_slot(),
    {
        VoiceSlot { note: 0, active: false, stage: Stage::new() }
    }

    /// Starts `note` on this voice.
    pub fn note_on(&mut self, note: u8)
        ensures
            *final(self) == started_slot(note),
    {
        self.note = note;
        self.active = true;
        self.stage.note_on();
    }

    /// Releases this voice's envelope.
    pub fn note_off(&mut self)
        ensures
            *final(self) == (VoiceSlot { stage: spec_note_off(old(self).stage), ..*old(self) }),
    {
        self.stage.note_off();
    }

    /// The voice has finished when its envelope is silent.
    pub fn is_done(&self) -> (b: bool)
        ensures
            b == (self.stage == Stage::Idle),
    {
        self.stage.is_idle()
    }
}

/// The index of the first free voice at or after `from`, if any.
pub open spec fn first_free_from(s: Seq<VoiceSlot>, from: int) -> Option<int>
    decreases s.len() - from,
{
    if from < 0 || from >= s.len() {
        None
    } else if slot_is_free(s[from]) {
        Some(from)
    } else {
        first_free_from(s, from + 1)
    }
}

/// The index of the first free voice, if any.
pub open spec fn first_free(s: Seq<VoiceSlot>) -> Option<int> {
    first_free_from(s, 0)
}

/// `first_free_from` finds the first free voice at or after `from`, and finds
/// none exactly when there is none.
pub proof fn lemma_first_free_from(s: Seq<VoiceSlot>, from: int)
    requires
        0 <= from,
    ensures
        match first_free_from(s, from) {
            Some(i) => from <= i < s.len() && slot_is_free(s[i]) && forall|j: int|
                from <= j < i ==> !slot_is_free(#[trigger] s[j]),
            None => forall|j: int| from <= j < s.len() ==> !slot_is_free(#[trigger] s[j]),
        },
    decreases s.len() - from,
{
    if from < s.len() && !slot_is_free(s[from]) {
        lemma_first_free_from(s, from + 1);
    }
}

/// The voice that a note-on takes: the first free one, else voice 0 is stolen.
pub open spec fn chosen_slot(s: Seq<VoiceSlot>) -> int {
    match first_free(s) {
        Some(i) => i,
        None => 0,
    }
}

pub open spec fn spec_bank_note_on(s: Seq<VoiceSlot>, note: u8) -> Seq<VoiceSlot> {
    s.update(chosen_slot(s), started_slot(note))
}

/// A voice after a note-off for `note`: released if it is sounding that note.
pub open spec fn released_slot(v: VoiceSlot, note: u8) -> VoiceSlot {
    if v.active && v.note == note {
        VoiceSlot { stage: spec_note_off(v.stage), ..v }
    } else {
        v
    }
}

pub open spec fn spec_bank_note_off(s: Seq<VoiceSlot>, note: u8) -> Seq<VoiceSlot> {
    Seq::new(s.len(), |i: int| released_slot(s[i], note))
}

/// A voice after one sample: its envelope advances, and it stops sounding
/// once the envelope is silent.
pub open spec fn stepped_slot(v: VoiceSlot, reached: bool) -> VoiceSlot {
    let stage = spec_advance(v.stage, reached);
    VoiceSlot { note: v.note, active: if stage == Stage::Idle { false } else { v.active }, stage }
}

/// Every voice of a well-formed bank sounds exactly while its envelope does.
pub open spec fn bank_wf(s: Seq<VoiceSlot>) -> bool {
    &&& s.len() == MAX_VOICES
    &&& forall|i: int| 0 <= i < s.len() ==> (#[trigger] s[i]).active == (s[i].stage != Stage::Idle)
}

/// The eight voices of one deck.
pub struct VoiceBank {
    slots: Vec<VoiceSlot>,
}

impl View for VoiceBank {
    type V = Seq<VoiceSlot>;

    closed spec fn view(&self) -> Seq<VoiceSlot> {
        self.slots@
    }
}

proof fn lemma_first_free_is_first(s: Seq<VoiceSlot>, i: int)
    requires
        0 <= i < s.len(),
        slot_is_free(s[i]),
        forall|j: int| 0 <= j < i ==> !slot_is_free(s[j]),
    ensures
        first_free(s) == Some(i),
{
    lemma_first_free_from(s, 0);
    match first_free_from(s, 0) {
        Some(k) => {
            if k < i {
                assert(!slot_is_free(s[k]));
            } else if i < k {
                assert(!slot_is_free(s[i]));
            }
        },
        None => {
            assert(!slot_is_free(s[i]));
        },
    }
}

impl VoiceBank {
    /// Eight silent voices.
    pub open spec fn new_spec() -> Seq<VoiceSlot> {
        Seq::new(MAX_VOICES as nat, |i: int| silent_slot())
    }

    pub fn new() -> (b: VoiceBank)
        ensures
            bank_wf(b@),
            b@ == VoiceBank::new_spec(),
    {
        let mut slots: Vec<VoiceSlot> = Vec::new();
        let mut i: usize = 0;
        while i < MAX_VOICES
            invariant
                i <= MAX_VOICES,
                slots@ == Seq::new(i as nat, |k: int| silent_slot()),
            decreases MAX_VOICES - i,
        {
            slots.push(VoiceSlot::new());
            i = i + 1;
        }
        VoiceBank { slots }
    }

    pub fn len(&self) -> (n: usize)
        ensures
            n == self@.len(),
    {
        self.slots.len()
    }

    pub fn slot(&self, i: usize) -> (v: VoiceSlot)
        requires
            i < self@.len(),
        ensures
            v == self@[i as int],
    {
        self.slots[i]
    }

    pub fn is_active(&self, i: usize) -> (b: bool)
        requires
            i < self@.len(),
        ensures
            b == self@[i as int].active,
    {
        self.slots[i].active
    }

    pub fn stage(&self, i: usize) -> (s: Stage)
        requires
            i < self@.len(),
        ensures
            s == self@[i as int].stage,
    {
        self.slots[i].stage
    }

    /// The first voice that is not sounding or has finished.
    pub fn find_free_voice(&self) -> (r: Option<usize>)
        ensures
            match r {
                Some(i) => first_free(self@) == Some(i as int),
                None => first_free(self@) is None,
            },
    {
        let n = self.slots.len();
        let mut i: usize = 0;
        while i < n
            invariant
                n == self@.len(),
                i <= n,
                forall|j: int| 0 <= j < i ==> !slot_is_free(self@[j]),
            decreases n - i,
        {
            let v = self.slots[i];
            if !v.active || v.stage.is_idle() {
                proof {
                    lemma_first_free_is_first(self@, i as int);
                }
                return Some(i);
            }
            i = i + 1;
        }
        proof {
            lemma_first_free_from(self@, 0);
            if let Some(k) = first_free_from(self@, 0) {
                assert(!slot_is_free(self@[k]));
            }
        }
        None
    }

    /// Starts `note` on the first free voice, or steals voice 0 when all are busy.
    /// Returns the voice used.
    pub fn note_on(&mut self, note: u8) -> (slot: usize)
        requires
            bank_wf(old(self)@),
        ensures
            bank_wf(final(self)@),
            slot == chosen_slot(old(self)@),
            final(self)@ == spec_bank_note_on(old(self)@, note),
    {
        let slot = match self.find_free_voice() {
            Some(i) => i,
            None => 0,
        };
        proof {
            lemma_first_free_from(old(self)@, 0);
        }
        let mut v = self.slots[slot];
        v.note_on(note);
        self.slots.set(slot, v);
        slot
    }

    /// Releases every sounding voice that plays `note`.
    pub fn note_off(&mut self, note: u8)
        requires
            bank_wf(old(self)@),
        ensures
            bank_wf(final(self)@),
            final(self)@ == spec_bank_note_off(old(self)@, note),
    {
        let n = self.slots.len();
        let mut i: usize = 0;
        while i < n
            invariant
                n == old(self)@.len(),
                n == self@.len(),
                i <= n,
                forall|k: int| 0 <= k < i ==> self@[k] == released_slot(old(self)@[k], note),
                forall|k: int| i <= k < n ==> self@[k] == old(self)@[k],
            decreases n - i,
        {
            let mut v = self.slots[i];
            if v.active && v.note == note {
                v.note_off();
                self.slots.set(i, v);
            }
            i = i + 1;
        }
        assert(self@ =~= spec_bank_note_off(old(self)@, note));
    }

    /// Advances voice `i` by one sample; it stops sounding once its envelope is silent.
    pub fn advance(&mut self, i: usize, reached: bool)
        requires
            bank_wf(old(self)@),
            i < old(self)@.len(),
        ensures
            bank_wf(final(self)@),
            final(self)@ == old(self)@.update(i as int, stepped_slot(old(self)@[i as int], reached)),
    {
        let mut v = self.slots[i];
        v.stage.advance(reached);
        if v.is_done() {
            v.active = false;
        }
        self.slots.set(i, v);
    }

    /// Applies a note event to this deck's voices. A note-on returns the voice
    /// that now plays it.
    pub fn apply_event(&mut self, event: MidiEvent) -> (r: Option<usize>)
        requires
            bank_wf(old(self)@),
        ensures
            bank_wf(final(self)@),
            match event {
                MidiEvent::NoteOn { note, .. } => {
                    &&& r == Some(chosen_slot(old(self)@) as usize)
                    &&& final(self)@ == spec_bank_note_on(old(self)@, note)
                },
                MidiEvent::NoteOff { note, .. } => {
                    &&& r is None
                    &&& final(self)@ == spec_bank_note_off(old(self)@, note)
                },
            },
    {
        match event {
            MidiEvent::NoteOn { note, .. } => Some(self.note_on(note)),
            MidiEvent::NoteOff { note, .. } => {
                self.note_off(note);
                None
            },
        }
    }
}

/// A note-on never cuts off a sounding voice while a free one exists; it
/// always lands on one of the deck's voices.
pub proof fn lemma_note_on_prefers_free_voice(s: Seq<VoiceSlot>)
    requires
        bank_wf(s),
    ensures
        0 <= chosen_slot(s) < s.len(),
        (exists|i: int| 0 <= i < s.len() && slot_is_free(s[i])) ==> slot_is_free(
            s[chosen_slot(s)],
        ),
        (forall|i: int| 0 <= i < s.len() ==> !slot_is_free(s[i])) ==> chosen_slot(s) == 0,
        forall|j: int| 0 <= j < chosen_slot(s) ==> !slot_is_free(s[j]),
{
    lemma_first_free_from(s, 0);
}

/// After a note-off, no voice still holds that note in attack, decay or sustain:
/// each one that plays it is releasing or silent.
pub proof fn lemma_note_off_releases_note(s: Seq<VoiceSlot>, note: u8)
    requires
        bank_wf(s),
    ensures
        forall|i: int|
            0 <= i < s.len() && (#[trigger] spec_bank_note_off(s, note)[i]).active
                && spec_bank_note_off(s, note)[i].note == note ==> spec_bank_note_off(
                s,
                note,
            )[i].stage == Stage::Release,
{
}

/// A note-off leaves every voice that plays another note as it was, and
/// repeating it changes nothing more.
pub proof fn lemma_note_off_touches_only_its_note(s: Seq<VoiceSlot>, note: u8)
    requires
        bank_wf(s),
    ensures
        forall|i: int|
            0 <= i < s.len() && (#[trigger] s[i]).note != note ==> spec_bank_note_off(s, note)[i]
                == s[i],
        spec_bank_note_off(spec_bank_note_off(s, note), note) == spec_bank_note_off(s, note),
{
    assert(spec_bank_note_off(spec_bank_note_off(s, note), note) =~= spec_bank_note_off(s, note));
}

/// A note that is started and then stopped leaves its voice releasing.
pub proof fn lemma_note_on_then_off_releases(s: Seq<VoiceSlot>, note: u8)
    requires
        bank_wf(s),
    ensures
        spec_bank_note_off(spec_bank_note_on(s, note), note)[chosen_slot(s)] == (VoiceSlot {
            note,
            active: true,
            stage: Stage::Release,
        }),
{
    lemma_note_on_prefers_free_voice(s);
}

/// A bank stays well-formed and keeps its eight voices under every operation.
pub proof fn lemma_operations_keep_bank_wf(s: Seq<VoiceSlot>, note: u8, i: int, reached: bool)
    requires
        bank_wf(s),
        0 <= i < s.len(),
    ensures
        bank_wf(spec_bank_note_on(s, note)),
        bank_wf(spec_bank_note_off(s, note)),
        bank_wf(s.update(i, stepped_slot(s[i], reached))),
{
    lemma_note_on_prefers_free_voice(s);
    let t = s.update(i, stepped_slot(s[i], reached));
    assert forall|k: int| 0 <= k < t.len() implies (#[trigger] t[k]).active == (t[k].stage
        != Stage::Idle) by {
        if k != i {
            assert(s[k].active == (s[k].stage != Stage::Idle));
        }
    }
}

/// On a note-off, every voice that was sounding the note keeps sounding, with
/// the same note, and fades out: it is active and in Release, whatever stage
/// (attack, decay, sustain or release) it was in. Every other voice is unchanged,
/// and the deck keeps its voices.
pub proof fn lemma_note_off_keeps_releasing_voices(s: Seq<VoiceSlot>, note: u8)
    requires
        bank_wf(s),
    ensures
        spec_bank_note_off(s, note).len() == s.len(),
        forall|i: int|
            0 <= i < s.len() && (#[trigger] s[i]).active && s[i].note == note ==> spec_bank_note_off(
                s,
                note,
            )[i] == (VoiceSlot { note, active: true, stage: Stage::Release }),
        forall|i: int|
            0 <= i < s.len() && !((#[trigger] s[i]).active && s[i].note == note) ==> spec_bank_note_off(
                s,
                note,
            )[i] == s[i],
{
    assert forall|i: int| 0 <= i < s.len() && (#[trigger] s[i]).active && s[i].note == note implies spec_bank_note_off(
        s,
        note,
    )[i] == (VoiceSlot { note, active: true, stage: Stage::Release }) by {
        assert(s[i].stage != Stage::Idle);
    }
}

} // verus!
