use vstd::prelude::*;

verus! {

/// A key press, as far as the synthesizer's keyboard controls care.
#[derive(Clone, Copy, PartialEq, Eq, Debug, Structural)]
pub enum Key {
    Char(char),
    Tab,
    Other,
}

/// A parameter of the focused deck that the keyboard nudges up or down.
#[derive(Clone, Copy, PartialEq, Eq, Debug, Structural)]
pub enum Knob {
    Attack,
    Decay,
    Sustain,
    Release,
    LfoRate,
    LfoDepth,
}

/// What a key press asks for.
#[derive(Clone, Copy, PartialEq, Eq, Debug, Structural)]
pub enum Command {
    Quit,
    /// Focus Deck A (0) or Deck B (1).
    FocusDeck(u8),
    ToggleDeck,
    /// 0 = sine, 1 = saw, 2 = square, 3 = triangle.
    SetWaveform(u8),
    Nudge { knob: Knob, up: bool },
    CycleLfoTarget,
    Nothing,
}

/// The keyboard table: `q` or Ctrl-C quit; `a`, `b`, Tab pick the deck;
/// `1`..`4` pick the waveform; lower case raises and upper case lowers attack
/// (`e`), decay (`d`), sustain (`s`), release (`r`); `]`/`[` move the LFO rate,
/// `=`/`-` its depth; `t` cycles the LFO target.
pub open spec fn spec_command(key: Key, ctrl: bool) -> Command {
    match key {
        Key::Tab => Command::ToggleDeck,
        Key::Other => Command::Nothing,
        Key::Char(c) => if c == 'q' || (c == 'c' && ctrl) {
            Command::Quit
        } else if c == 'a' {
            Command::FocusDeck(0)
        } else if c == 'b' {
            Command::FocusDeck(1)
        } else if c == '1' {
            Command::SetWaveform(0)
        } else if c == '2' {
            Command::SetWaveform(1)
        } else if c == '3' {
            Command::SetWaveform(2)
        } else if c == '4' {
            Command::SetWaveform(3)
        } else if c == 'e' || c == 'E' {
            Command::Nudge { knob: Knob::Attack, up: c == 'e' }
        } else if c == 'd' || c == 'D' {
            Command::Nudge { knob: Knob::Decay, up: c == 'd' }
        } else if c == 's' || c == 'S' {
            Command::Nudge { knob: Knob::Sustain, up: c == 's' }
        } else if c == 'r' || c == 'R' {
            Command::Nudge { knob: Knob::Release, up: c == 'r' }
        } else if c == ']' || c == '[' {
            Command::Nudge { knob: Knob::LfoRate, up: c == ']' }
        } else if c == '=' || c == '-' {
            Command::Nudge { knob: Knob::LfoDepth, up: c == '=' }
        } else if c == 't' {
            Command::CycleLfoTarget
        } else {
            Command::Nothing
        },
    }
}

/// Looks up what a key press asks for; `ctrl` tells whether Control was held.
pub fn command_for_key(key: Key, ctrl: bool) -> (c: Command)
    ensures
        c == spec_command(key, ctrl),
{
    match key {
        Key::Tab => Command::ToggleDeck,
        Key::Other => Command::Nothing,
        Key::Char(c) => {
            if c == 'q' || (c == 'c' && ctrl) {
                Command::Quit
            } else if c == 'a' {
                Command::FocusDeck(0)
            } else if c == 'b' {
                Command::FocusDeck(1)
            } else if c == '1' {
                Command::SetWaveform(0)
            } else if c == '2' {
                Command::SetWaveform(1)
            } else if c == '3' {
                Command::SetWaveform(2)
            } else if c == '4' {
                Command::SetWaveform(3)
            } else if c == 'e' || c == 'E' {
                Command::Nudge { knob: Knob::Attack, up: c == 'e' }
            } else if c == 'd' || c == 'D' {
                Command::Nudge { knob: Knob::Decay, up: c == 'd' }
            } else if c == 's' || c == 'S' {
                Command::Nudge { knob: Knob::Sustain, up: c == 's' }
            } else if c == 'r' || c == 'R' {
                Command::Nudge { knob: Knob::Release, up: c == 'r' }
            } else if c == ']' || c == '[' {
                Command::Nudge { knob: Knob::LfoRate, up: c == ']' }
            } else if c == '=' || c == '-' {
                Command::Nudge { knob: Knob::LfoDepth, up: c == '=' }
            } else if c == 't' {
                Command::CycleLfoTarget
            } else {
                Command::Nothing
            }
        },
    }
}

/// Which deck the keyboard edits: 0 = Deck A, 1 = Deck B.
pub struct DeckFocus {
    active_deck: u8,
}

impl View for DeckFocus {
    type V = u8;

    closed spec fn view(&self) -> u8 {
        self.active_deck
    }
}

/// The focus after a command: Tab flips between the decks, `a`/`b` pick one,
/// other commands leave it alone.
pub open spec fn spec_focus_after(active: u8, command: Command) -> u8 {
    match command {
        Command::ToggleDeck => active ^ 1u8,
        Command::FocusDeck(d) => d,
        _ => active,
    }
}

impl DeckFocus {
    /// The keyboard starts on Deck A.
    pub fn new() -> (f: DeckFocus)
        ensures
            f@ == 0,
    {
        DeckFocus { active_deck: 0 }
    }

    pub fn active_deck(&self) -> (d: u8)
        ensures
            d == self@,
    {
        self.active_deck
    }

    pub fn apply(&mut self, command: Command)
        ensures
            final(self)@ == spec_focus_after(old(self)@, command),
    {
        match command {
            Command::ToggleDeck => {
                self.active_deck = self.active_deck ^ 1u8;
            },
            Command::FocusDeck(d) => {
                self.active_deck = d;
            },
            _ => {},
        }
    }
}

/// Flipping the focus twice comes back to the same deck, and from a valid
/// deck it always lands on the other one.
pub proof fn lemma_toggle_flips(active: u8)
    ensures
        spec_focus_after(spec_focus_after(active, Command::ToggleDeck), Command::ToggleDeck)
            == active,
        active == 0 ==> spec_focus_after(active, Command::ToggleDeck) == 1,
        active == 1 ==> spec_focus_after(active, Command::ToggleDeck) == 0,
{
    assert((active ^ 1u8) ^ 1u8 == active) by (bit_vector);
    assert(active == 0 ==> active ^ 1u8 == 1) by (bit_vector);
    assert(active == 1 ==> active ^ 1u8 == 0) by (bit_vector);
}

/// Where the LFO of a deck acts.
#[derive(Clone, Copy, PartialEq, Eq, Debug, Structural)]
pub enum LfoTarget {
    Off,
    Cutoff,
    Pitch,
    Amp,
}

pub open spec fn spec_lfo_target(code: u8) -> LfoTarget {
    if code == 1 {
        LfoTarget::Cutoff
    } else if code == 2 {
        LfoTarget::Pitch
    } else if code == 3 {
        LfoTarget::Amp
    } else {
        LfoTarget::Off
    }
}

/// Reads the stored LFO target: 1 cutoff, 2 pitch, 3 amplitude, anything else none.
pub fn lfo_target(code: u8) -> (t: LfoTarget)
    ensures
        t == spec_lfo_target(code),
{
    if code == 1 {
        LfoTarget::Cutoff
    } else if code == 2 {
        LfoTarget::Pitch
    } else if code == 3 {
        LfoTarget::Amp
    } else {
        LfoTarget::Off
    }
}

/// The next LFO target in the cycle None, Cutoff, Pitch, Amp, None.
pub fn next_lfo_target(code: u8) -> (n: u8)
    requires
        code < 255,
    ensures
        n == (code + 1) % 4,
        n < 4,
{
    (code + 1) % 4
}

/// Cycling the LFO target steps None, Cutoff, Pitch, Amp and back to None,
/// so four presses return to where they started.
pub proof fn lemma_lfo_cycle(code: u8)
    requires
        code < 4,
    ensures
        spec_lfo_target(((code + 1) % 4) as u8) == (match spec_lfo_target(code) {
            LfoTarget::Off => LfoTarget::Cutoff,
            LfoTarget::Cutoff => LfoTarget::Pitch,
            LfoTarget::Pitch => LfoTarget::Amp,
            LfoTarget::Amp => LfoTarget::Off,
        }),
        ((((((((code + 1) % 4) + 1) % 4) + 1) % 4) + 1) % 4) == code,
{
}

/// Number of waveforms, and of rows in the waveform list.
pub const WAVEFORM_COUNT: usize = 4;

/// Display name of waveform `i`.
pub fn waveform_name(i: usize) -> (s: &'static str)
    requires
        i < WAVEFORM_COUNT,
    ensures
        i == 0 ==> s@ == "Sine"@,
        i == 1 ==> s@ == "Saw"@,
        i == 2 ==> s@ == "Square"@,
        i == 3 ==> s@ == "Triangle"@,
{
    if i == 0 {
        "Sine"
    } else if i == 1 {
        "Saw"
    } else if i == 2 {
        "Square"
    } else {
        "Triangle"
    }
}

/// Display name of a stored LFO target code; "?" for codes out of range.
pub fn lfo_target_name(code: usize) -> (s: &'static str)
    ensures
        code == 0 ==> s@ == "None"@,
        code == 1 ==> s@ == "Cutoff"@,
        code == 2 ==> s@ == "Pitch"@,
        code == 3 ==> s@ == "Amp"@,
        code >= 4 ==> s@ == "?"@,
{
    if code == 0 {
        "None"
    } else if code == 1 {
        "Cutoff"
    } else if code == 2 {
        "Pitch"
    } else if code == 3 {
        "Amp"
    } else {
        "?"
    }
}

/// Left edge of the MIDI device list: 30 columns in from the right of the
/// status area, but never past two columns before its right edge.
pub fn device_list_x(area_x: u16, area_width: u16) -> (x: u16)
    requires
        2 <= area_x + area_width <= u16::MAX,
    ensures
        x == if area_width >= 30 {
            if area_width - 30 <= area_x + area_width - 2 {
                area_width - 30
            } else {
                area_x + area_width - 2
            }
        } else {
            0
        },
{
    let from_right = area_width.saturating_sub(30);
    let limit = area_x + area_width - 2;
    if from_right <= limit {
        from_right
    } else {
        limit
    }
}

/// Picking a deck with `a` or `b` focuses that deck whatever was focused
/// before; picking the focused deck again keeps it. Commands other than a deck
/// pick or Tab leave the focus alone.
pub proof fn lemma_focus_pick(active: u8, d: u8, other: Command)
    requires
        !(other is FocusDeck),
        !(other is ToggleDeck),
    ensures
        spec_focus_after(active, Command::FocusDeck(d)) == d,
        spec_focus_after(spec_focus_after(active, Command::FocusDeck(d)), Command::FocusDeck(d)) == d,
        spec_focus_after(active, other) == active,
{
}

} // verus!
