use synth_8080::error::SynthError;
use synth_8080::midi_osc::{input_target, McoInput, MidiOsc};
use synth_8080::notes::Note;

#[test]
fn play_takes_first_idle_voice() {
    let mut osc = MidiOsc::new(3);
    assert_eq!(osc.play_note(Note::A4), Ok(0));
    assert_eq!(osc.play_note(Note::C4), Ok(1));
    assert_eq!(osc.stop_note(Note::A4), Ok(0));
    assert_eq!(osc.play_note(Note::E4), Ok(0));
    assert_eq!(osc.playing_count(), 2);
    assert!(osc.is_playing(Note::C4));
    assert!(!osc.is_playing(Note::A4));
}

#[test]
fn play_refusals() {
    let mut osc = MidiOsc::new(1);
    assert_eq!(osc.play_note(Note::A4), Ok(0));
    assert_eq!(osc.play_note(Note::A4), Err(SynthError::AlreadyPlaying));
    assert_eq!(osc.play_note(Note::B4), Err(SynthError::NoFreeOscillator));
    assert_eq!(osc.stop_note(Note::B4), Err(SynthError::NotPlaying));
    let mut none = MidiOsc::new(0);
    assert_eq!(none.play_note(Note::C0), Err(SynthError::NoFreeOscillator));
}

#[test]
fn play_then_stop_restores_voices() {
    let mut osc = MidiOsc::default();
    assert_eq!(osc.size(), 10);
    osc.play_note(Note::G2).unwrap();
    let before = osc.playing_count();
    osc.play_note(Note::Cs5).unwrap();
    osc.stop_note(Note::Cs5).unwrap();
    assert_eq!(osc.playing_count(), before);
    assert!(osc.is_playing(Note::G2));
    assert!(!osc.is_playing(Note::Cs5));
}

#[test]
fn sharps_and_flats_are_distinct_notes() {
    let mut osc = MidiOsc::new(2);
    assert_eq!(osc.play_note(Note::Cs4), Ok(0));
    assert_eq!(osc.play_note(Note::Db4), Ok(1));
}

#[test]
fn polyphony_and_overtones() {
    let mut osc = MidiOsc::new(2);
    osc.play_note(Note::A4).unwrap();
    osc.set_overtones(true);
    assert!(osc.overtones());
    assert!(osc.is_playing(Note::A4));
    osc.set_polyphony(5);
    assert_eq!(osc.size(), 5);
    assert_eq!(osc.playing_count(), 0);
    assert!(osc.overtones());
}

#[test]
fn note_names() {
    assert_eq!(Note::C0.name(), "C0");
    assert_eq!(Note::Cs4.name(), "C#4");
    assert_eq!(Note::Bb2.name(), "Bb2");
    assert_eq!(Note::B8.name(), "B8");
}

#[test]
fn mco_inputs_route_to_envelopes_then_oscillators() {
    assert_eq!(input_target(0), McoInput::Envelope(0));
    assert_eq!(input_target(7), McoInput::Envelope(7));
    assert_eq!(input_target(8), McoInput::Oscillator(0));
    assert_eq!(input_target(10), McoInput::Oscillator(2));
    assert_eq!(input_target(11), McoInput::Invalid);
}

#[test]
fn note_pitches_in_semitones() {
    assert_eq!(Note::C0.semitone(), 0);
    assert_eq!(Note::Cs4.semitone(), Note::Db4.semitone());
    assert_eq!(Note::A4.semitone(), 57);
    assert_eq!(Note::B8.semitone(), 107);
    assert_eq!(Note::Bb2.semitone(), Note::As2.semitone());
    assert_eq!(Note::C1.semitone(), Note::B0.semitone() + 1);
}

#[test]
fn note_names_are_spelled_and_distinct() {
    assert_eq!(Note::Cs4.name(), "C#4");
    assert_eq!(Note::Db4.name(), "Db4");
    assert_ne!(Note::Cs4.name(), Note::Db4.name());
    assert_ne!(Note::As8.name(), Note::Bb8.name());
    assert_eq!(Note::A8.name(), "A8");
}
