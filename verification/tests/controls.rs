use dynth::controls::{
    command_for_key, device_list_x, lfo_target, lfo_target_name, next_lfo_target, waveform_name,
    Command, DeckFocus, Key, Knob, LfoTarget, WAVEFORM_COUNT,
};

#[test]
fn keys_quit() {
    assert_eq!(command_for_key(Key::Char('q'), false), Command::Quit);
    assert_eq!(command_for_key(Key::Char('q'), true), Command::Quit);
    assert_eq!(command_for_key(Key::Char('c'), true), Command::Quit);
    assert_eq!(command_for_key(Key::Char('c'), false), Command::Nothing);
}

#[test]
fn keys_pick_deck_and_waveform() {
    assert_eq!(command_for_key(Key::Tab, false), Command::ToggleDeck);
    assert_eq!(command_for_key(Key::Char('a'), false), Command::FocusDeck(0));
    assert_eq!(command_for_key(Key::Char('b'), false), Command::FocusDeck(1));
    assert_eq!(command_for_key(Key::Char('1'), false), Command::SetWaveform(0));
    assert_eq!(command_for_key(Key::Char('2'), false), Command::SetWaveform(1));
    assert_eq!(command_for_key(Key::Char('3'), false), Command::SetWaveform(2));
    assert_eq!(command_for_key(Key::Char('4'), false), Command::SetWaveform(3));
    assert_eq!(command_for_key(Key::Char('5'), false), Command::Nothing);
    assert_eq!(command_for_key(Key::Other, true), Command::Nothing);
}

#[test]
fn keys_nudge_knobs() {
    let table = [
        ('e', Knob::Attack, true),
        ('E', Knob::Attack, false),
        ('d', Knob::Decay, true),
        ('D', Knob::Decay, false),
        ('s', Knob::Sustain, true),
        ('S', Knob::Sustain, false),
        ('r', Knob::Release, true),
        ('R', Knob::Release, false),
        (']', Knob::LfoRate, true),
        ('[', Knob::LfoRate, false),
        ('=', Knob::LfoDepth, true),
        ('-', Knob::LfoDepth, false),
    ];
    for (c, knob, up) in table {
        assert_eq!(command_for_key(Key::Char(c), false), Command::Nudge { knob, up });
    }
    assert_eq!(command_for_key(Key::Char('t'), false), Command::CycleLfoTarget);
}

#[test]
fn focus_toggles_and_picks() {
    let mut f = DeckFocus::new();
    assert_eq!(f.active_deck(), 0);
    f.apply(Command::ToggleDeck);
    assert_eq!(f.active_deck(), 1);
    f.apply(Command::ToggleDeck);
    assert_eq!(f.active_deck(), 0);
    f.apply(Command::FocusDeck(1));
    assert_eq!(f.active_deck(), 1);
    f.apply(Command::SetWaveform(2));
    assert_eq!(f.active_deck(), 1);
    f.apply(Command::FocusDeck(0));
    assert_eq!(f.active_deck(), 0);
}

#[test]
fn lfo_target_cycle() {
    assert_eq!(next_lfo_target(0), 1);
    assert_eq!(next_lfo_target(1), 2);
    assert_eq!(next_lfo_target(2), 3);
    assert_eq!(next_lfo_target(3), 0);
    assert_eq!(next_lfo_target(9), 2);
    let mut t = 2u8;
    for _ in 0..4 {
        t = next_lfo_target(t);
    }
    assert_eq!(t, 2);
}

#[test]
fn lfo_target_codes() {
    assert_eq!(lfo_target(0), LfoTarget::Off);
    assert_eq!(lfo_target(1), LfoTarget::Cutoff);
    assert_eq!(lfo_target(2), LfoTarget::Pitch);
    assert_eq!(lfo_target(3), LfoTarget::Amp);
    assert_eq!(lfo_target(4), LfoTarget::Off);
}

#[test]
fn display_names() {
    let names: Vec<&str> = (0..WAVEFORM_COUNT).map(waveform_name).collect();
    assert_eq!(names, vec!["Sine", "Saw", "Square", "Triangle"]);
    assert_eq!(lfo_target_name(0), "None");
    assert_eq!(lfo_target_name(1), "Cutoff");
    assert_eq!(lfo_target_name(2), "Pitch");
    assert_eq!(lfo_target_name(3), "Amp");
    assert_eq!(lfo_target_name(4), "?");
}

#[test]
fn device_list_position() {
    assert_eq!(device_list_x(0, 100), 70);
    assert_eq!(device_list_x(0, 20), 0);
    assert_eq!(device_list_x(0, 31), 1);
    assert_eq!(device_list_x(0, 2), 0);
    assert_eq!(device_list_x(5, 40), 10);
}
