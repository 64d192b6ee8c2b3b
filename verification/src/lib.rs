//! Decision logic of a two-deck MIDI synthesizer: MIDI message decoding,
//! control-change routing, envelope stages, voice allocation and the
//! keyboard command table. Sample-level signal processing lives with the
//! audio front end; everything here works on integers, booleans and text.

pub mod text;
pub mod midi;
pub mod envelope;
pub mod voice;
pub mod routing;
pub mod controls;
pub mod oscillator;
pub mod engine;
