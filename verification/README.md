# dynth

A two-deck subtractive synthesizer driven by a DJ controller over MIDI.

- `src/` is the verified library: decoding of raw MIDI messages, routing of
  control changes through the controller mappings, the ADSR stage machine,
  voice allocation for both decks, the keyboard command table and a few
  index computations of the wavetable reader. Every function there carries a
  contract proved by Verus; the laws that tie several operations together are
  public proof functions next to the code they speak of.
- `app/` is the program around it: audio output, MIDI input, the terminal UI,
  the configuration file and all sample-level arithmetic (oscillator, ladder
  filter, envelope level, LFO, mixing), which works in floating point.
- `tests/` exercises the library on concrete values.
