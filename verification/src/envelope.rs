use vstd::prelude::*;

verus! {

/// Stage of an ADSR envelope. The level itself is a sample-rate quantity
/// kept by the audio side; the stage decides which ramp the level follows.
#[derive(Clone, Copy, PartialEq, Eq, Debug, Structural)]
pub enum Stage {
    Idle,
    Attack,
    Decay,
    Sustain,
    Release,
}

/// The stage after one sample. `reached` says whether the level met the end
/// of its current ramp this sample: 1.0 in Attack, the sustain level in Decay,
/// 0.0 in Release. Idle and Sustain do not move on their own.
pub open spec fn spec_advance(stage: Stage, reached: bool) -> Stage {
    match stage {
        Stage::Attack => if reached {
            Stage::Decay
        } else {
            Stage::Attack
        },
        Stage::Decay => if reached {
            Stage::Sustain
        } else {
            Stage::Decay
        },
        Stage::Release => if reached {
            Stage::Idle
        } else {
            Stage::Release
        },
        other => other,
    }
}

/// The stage after a note-off: release, unless the envelope is silent already.
pub open spec fn spec_note_off(stage: Stage) -> Stage {
    if stage == Stage::Idle {
        Stage::Idle
    } else {
        Stage::Release
    }
}

/// Position of a stage along its path: Attack, Decay, Sustain in turn,
/// and Release before Idle.
pub open spec fn stage_rank(stage: Stage) -> int {
    match stage {
        Stage::Attack => 0,
        Stage::Decay => 1,
        Stage::Sustain => 2,
        Stage::Release => 3,
        Stage::Idle => 4,
    }
}

impl Stage {
    /// A new envelope is silent.
    pub fn new() -> (s: Stage)
        ensures
            s == Stage::Idle,
    {
        Stage::Idle
    }

    /// A note-on always starts the attack, from any stage.
    pub fn note_on(&mut self)
        ensures
            *final(self) == Stage::Attack,
    {
        *self = Stage::Attack;
    }

    /// A note-off releases a sounding envelope and leaves a silent one silent.
    pub fn note_off(&mut self)
        ensures
            *final(self) == spec_note_off(*old(self)),
    {
        if *self != Stage::Idle {
            *self = Stage::Release;
        }
    }

    pub fn is_idle(&self) -> (b: bool)
        ensures
            b == (*self == Stage::Idle),
    {
        *self == Stage::Idle
    }

    /// Moves to the next stage when the level has reached the end of its ramp.
    pub fn advance(&mut self, reached: bool)
        ensures
            *final(self) == spec_advance(*old(self), reached),
    {
        match *self {
            Stage::Attack => if reached {
                *self = Stage::Decay;
            },
            Stage::Decay => if reached {
                *self = Stage::Sustain;
            },
            Stage::Release => if reached {
                *self = Stage::Idle;
            },
            _ => {},
        }
    }
}

/// An envelope never moves backwards: each step keeps its stage or moves
/// one place on, Attack to Decay to Sustain, and Release to Idle.
pub proof fn lemma_advance_moves_forward(stage: Stage, reached: bool)
    ensures
        stage_rank(stage) <= stage_rank(spec_advance(stage, reached)) <= stage_rank(stage) + 1,
        !reached ==> spec_advance(stage, reached) == stage,
        spec_advance(stage, reached) == Stage::Sustain ==> stage == Stage::Sustain
            || stage == Stage::Decay,
{
}

/// Only a note-on wakes a silent envelope: neither a step nor a note-off leaves Idle.
pub proof fn lemma_idle_waits_for_note_on(reached: bool)
    ensures
        spec_advance(Stage::Idle, reached) == Stage::Idle,
        spec_note_off(Stage::Idle) == Stage::Idle,
{
}

/// After a note-off, the first step at which the level reaches zero
/// silences the envelope, whatever stage the note was in.
pub proof fn lemma_release_ends_in_idle(stage: Stage)
    ensures
        spec_advance(spec_note_off(stage), true) == Stage::Idle,
        spec_note_off(stage) == Stage::Idle || spec_note_off(stage) == Stage::Release,
{
}

/// Sustain holds until a note-off: no step leaves it.
pub proof fn lemma_sustain_holds(reached: bool)
    ensures
        spec_advance(Stage::Sustain, reached) == Stage::Sustain,
{
}

/// A note-off moves every sounding stage (attack, decay, sustain or release)
/// to Release, so the note fades out through its release rather than stopping.
pub proof fn lemma_note_off_fades_out(stage: Stage)
    ensures
        stage != Stage::Idle ==> spec_note_off(stage) == Stage::Release,
        stage == Stage::Idle ==> spec_note_off(stage) == Stage::Idle,
{
}

} // verus!
