use vstd::prelude::*;

verus! {

/// A note of the equal-tempered scale, from C0 to B8. Sharps and flats are
/// separate variants (`Cs0` is C#0, `Db0` is Db0) though they sound alike.
#[derive(Debug, Clone, Copy, PartialEq, Eq, Structural, Hash)]
pub enum Note {
    C0,
    Cs0,
    Db0,
    D0,
    Ds0,
    Eb0,
    E0,
    F0,
    Fs0,
    Gb0,
    G0,
    Gs0,
    Ab0,
    A0,
    As0,
    Bb0,
    B0,
    C1,
    Cs1,
    Db1,
    D1,
    Ds1,
    Eb1,
    E1,
    F1,
    Fs1,
    Gb1,
    G1,
    Gs1,
    Ab1,
    A1,
    As1,
    Bb1,
    B1,
    C2,
    Cs2,
    Db2,
    D2,
    Ds2,
    Eb2,
    E2,
    F2,
    Fs2,
    Gb2,
    G2,
    Gs2,
    Ab2,
    A2,
    As2,
    Bb2,
    B2,
    C3,
    Cs3,
    Db3,
    D3,
    Ds3,
    Eb3,
    E3,
    F3,
    Fs3,
    Gb3,
    G3,
    Gs3,
    Ab3,
    A3,
    As3,
    Bb3,
    B3,
    C4,
    Cs4,
    Db4,
    D4,
    Ds4,
    Eb4,
    E4,
    F4,
    Fs4,
    Gb4,
    G4,
    Gs4,
    Ab4,
    A4,
    As4,
    Bb4,
    B4,
    C5,
    Cs5,
    Db5,
    D5,
    Ds5,
    Eb5,
    E5,
    F5,
    Fs5,
    Gb5,
    G5,
    Gs5,
    Ab5,
    A5,
    As5,
    Bb5,
    B5,
    C6,
    Cs6,
    Db6,
    D6,
    Ds6,
    Eb6,
    E6,
    F6,
    Fs6,
    Gb6,
    G6,
    Gs6,
    Ab6,
    A6,
    As6,
    Bb6,
    B6,
    C7,
    Cs7,
    Db7,
    D7,
    Ds7,
    Eb7,
    E7,
    F7,
    Fs7,
    Gb7,
    G7,
    Gs7,
    Ab7,
    A7,
    As7,
    Bb7,
    B7,
    C8,
    Cs8,
    Db8,
    D8,
    Ds8,
    Eb8,
    E8,
    F8,
    Fs8,
    Gb8,
    G8,
    Gs8,
    Ab8,
    A8,
    As8,
    Bb8,
    B8,
}

/// How a note is written: its letter, `#` or `b` for a sharp or a flat, and
/// its octave, e.g. "C#4".
pub open spec fn note_name(n: Note) -> Seq<char> {
    match n {
        Note::C0 => "C0"@,
        Note::Cs0 => "C#0"@,
        Note::Db0 => "Db0"@,
        Note::D0 => "D0"@,
        Note::Ds0 => "D#0"@,
        Note::Eb0 => "Eb0"@,
        Note::E0 => "E0"@,
        Note::F0 => "F0"@,
        Note::Fs0 => "F#0"@,
        Note::Gb0 => "Gb0"@,
        Note::G0 => "G0"@,
        Note::Gs0 => "G#0"@,
        Note::Ab0 => "Ab0"@,
        Note::A0 => "A0"@,
        Note::As0 => "A#0"@,
        Note::Bb0 => "Bb0"@,
        Note::B0 => "B0"@,
        Note::C1 => "C1"@,
        Note::Cs1 => "C#1"@,
        Note::Db1 => "Db1"@,
        Note::D1 => "D1"@,
        Note::Ds1 => "D#1"@,
        Note::Eb1 => "Eb1"@,
        Note::E1 => "E1"@,
        Note::F1 => "F1"@,
        Note::Fs1 => "F#1"@,
        Note::Gb1 => "Gb1"@,
        Note::G1 => "G1"@,
        Note::Gs1 => "G#1"@,
        Note::Ab1 => "Ab1"@,
        Note::A1 => "A1"@,
        Note::As1 => "A#1"@,
        Note::Bb1 => "Bb1"@,
        Note::B1 => "B1"@,
        Note::C2 => "C2"@,
        Note::Cs2 => "C#2"@,
        Note::Db2 => "Db2"@,
        Note::D2 => "D2"@,
        Note::Ds2 => "D#2"@,
        Note::Eb2 => "Eb2"@,
        Note::E2 => "E2"@,
        Note::F2 => "F2"@,
        Note::Fs2 => "F#2"@,
        Note::Gb2 => "Gb2"@,
        Note::G2 => "G2"@,
        Note::Gs2 => "G#2"@,
        Note::Ab2 => "Ab2"@,
        Note::A2 => "A2"@,
        Note::As2 => "A#2"@,
        Note::Bb2 => "Bb2"@,
        Note::B2 => "B2"@,
        Note::C3 => "C3"@,
        Note::Cs3 => "C#3"@,
        Note::Db3 => "Db3"@,
        Note::D3 => "D3"@,
        Note::Ds3 => "D#3"@,
        Note::Eb3 => "Eb3"@,
        Note::E3 => "E3"@,
        Note::F3 => "F3"@,
        Note::Fs3 => "F#3"@,
        Note::Gb3 => "Gb3"@,
        Note::G3 => "G3"@,
        Note::Gs3 => "G#3"@,
        Note::Ab3 => "Ab3"@,
        Note::A3 => "A3"@,
        Note::As3 => "A#3"@,
        Note::Bb3 => "Bb3"@,
        Note::B3 => "B3"@,
        Note::C4 => "C4"@,
        Note::Cs4 => "C#4"@,
        Note::Db4 => "Db4"@,
        Note::D4 => "D4"@,
        Note::Ds4 => "D#4"@,
        Note::Eb4 => "Eb4"@,
        Note::E4 => "E4"@,
        Note::F4 => "F4"@,
        Note::Fs4 => "F#4"@,
        Note::Gb4 => "Gb4"@,
        Note::G4 => "G4"@,
        Note::Gs4 => "G#4"@,
        Note::Ab4 => "Ab4"@,
        Note::A4 => "A4"@,
        Note::As4 => "A#4"@,
        Note::Bb4 => "Bb4"@,
        Note::B4 => "B4"@,
        Note::C5 => "C5"@,
        Note::Cs5 => "C#5"@,
        Note::Db5 => "Db5"@,
        Note::D5 => "D5"@,
        Note::Ds5 => "D#5"@,
        Note::Eb5 => "Eb5"@,
        Note::E5 => "E5"@,
        Note::F5 => "F5"@,
        Note::Fs5 => "F#5"@,
        Note::Gb5 => "Gb5"@,
        Note::G5 => "G5"@,
        Note::Gs5 => "G#5"@,
        Note::Ab5 => "Ab5"@,
        Note::A5 => "A5"@,
        Note::As5 => "A#5"@,
        Note::Bb5 => "Bb5"@,
        Note::B5 => "B5"@,
        Note::C6 => "C6"@,
        Note::Cs6 => "C#6"@,
        Note::Db6 => "Db6"@,
        Note::D6 => "D6"@,
        Note::Ds6 => "D#6"@,
        Note::Eb6 => "Eb6"@,
        Note::E6 => "E6"@,
        Note::F6 => "F6"@,
        Note::Fs6 => "F#6"@,
        Note::Gb6 => "Gb6"@,
        Note::G6 => "G6"@,
        Note::Gs6 => "G#6"@,
        Note::Ab6 => "Ab6"@,
        Note::A6 => "A6"@,
        Note::As6 => "A#6"@,
        Note::Bb6 => "Bb6"@,
        Note::B6 => "B6"@,
        Note::C7 => "C7"@,
        Note::Cs7 => "C#7"@,
        Note::Db7 => "Db7"@,
        Note::D7 => "D7"@,
        Note::Ds7 => "D#7"@,
        Note::Eb7 => "Eb7"@,
        Note::E7 => "E7"@,
        Note::F7 => "F7"@,
        Note::Fs7 => "F#7"@,
        Note::Gb7 => "Gb7"@,
        Note::G7 => "G7"@,
        Note::Gs7 => "G#7"@,
        Note::Ab7 => "Ab7"@,
        Note::A7 => "A7"@,
        Note::As7 => "A#7"@,
        Note::Bb7 => "Bb7"@,
        Note::B7 => "B7"@,
        Note::C8 => "C8"@,
        Note::Cs8 => "C#8"@,
        Note::Db8 => "Db8"@,
        Note::D8 => "D8"@,
        Note::Ds8 => "D#8"@,
        Note::Eb8 => "Eb8"@,
        Note::E8 => "E8"@,
        Note::F8 => "F8"@,
        Note::Fs8 => "F#8"@,
        Note::Gb8 => "Gb8"@,
        Note::G8 => "G8"@,
        Note::Gs8 => "G#8"@,
        Note::Ab8 => "Ab8"@,
        Note::A8 => "A8"@,
        Note::As8 => "A#8"@,
        Note::Bb8 => "Bb8"@,
        Note::B8 => "B8"@,
    }
}

/// The pitch of a note, in semitones above C0. A sharp and the flat of the
/// next letter (C#4 and Db4) are the same pitch.
pub open spec fn note_semitone(n: Note) -> u8 {
    match n {
        Note::C0 => 0,
        Note::Cs0 => 1,
        Note::Db0 => 1,
        Note::D0 => 2,
        Note::Ds0 => 3,
        Note::Eb0 => 3,
        Note::E0 => 4,
        Note::F0 => 5,
        Note::Fs0 => 6,
        Note::Gb0 => 6,
        Note::G0 => 7,
        Note::Gs0 => 8,
        Note::Ab0 => 8,
        Note::A0 => 9,
        Note::As0 => 10,
        Note::Bb0 => 10,
        Note::B0 => 11,
        Note::C1 => 12,
        Note::Cs1 => 13,
        Note::Db1 => 13,
        Note::D1 => 14,
        Note::Ds1 => 15,
        Note::Eb1 => 15,
        Note::E1 => 16,
        Note::F1 => 17,
        Note::Fs1 => 18,
        Note::Gb1 => 18,
        Note::G1 => 19,
        Note::Gs1 => 20,
        Note::Ab1 => 20,
        Note::A1 => 21,
        Note::As1 => 22,
        Note::Bb1 => 22,
        Note::B1 => 23,
        Note::C2 => 24,
        Note::Cs2 => 25,
        Note::Db2 => 25,
        Note::D2 => 26,
        Note::Ds2 => 27,
        Note::Eb2 => 27,
        Note::E2 => 28,
        Note::F2 => 29,
        Note::Fs2 => 30,
        Note::Gb2 => 30,
        Note::G2 => 31,
        Note::Gs2 => 32,
        Note::Ab2 => 32,
        Note::A2 => 33,
        Note::As2 => 34,
        Note::Bb2 => 34,
        Note::B2 => 35,
        Note::C3 => 36,
        Note::Cs3 => 37,
        Note::Db3 => 37,
        Note::D3 => 38,
        Note::Ds3 => 39,
        Note::Eb3 => 39,
        Note::E3 => 40,
        Note::F3 => 41,
        Note::Fs3 => 42,
        Note::Gb3 => 42,
        Note::G3 => 43,
        Note::Gs3 => 44,
        Note::Ab3 => 44,
        Note::A3 => 45,
        Note::As3 => 46,
        Note::Bb3 => 46,
        Note::B3 => 47,
        Note::C4 => 48,
        Note::Cs4 => 49,
        Note::Db4 => 49,
        Note::D4 => 50,
        Note::Ds4 => 51,
        Note::Eb4 => 51,
        Note::E4 => 52,
        Note::F4 => 53,
        Note::Fs4 => 54,
        Note::Gb4 => 54,
        Note::G4 => 55,
        Note::Gs4 => 56,
        Note::Ab4 => 56,
        Note::A4 => 57,
        Note::As4 => 58,
        Note::Bb4 => 58,
        Note::B4 => 59,
        Note::C5 => 60,
        Note::Cs5 => 61,
        Note::Db5 => 61,
        Note::D5 => 62,
        Note::Ds5 => 63,
        Note::Eb5 => 63,
        Note::E5 => 64,
        Note::F5 => 65,
        Note::Fs5 => 66,
        Note::Gb5 => 66,
        Note::G5 => 67,
        Note::Gs5 => 68,
        Note::Ab5 => 68,
        Note::A5 => 69,
        Note::As5 => 70,
        Note::Bb5 => 70,
        Note::B5 => 71,
        Note::C6 => 72,
        Note::Cs6 => 73,
        Note::Db6 => 73,
        Note::D6 => 74,
        Note::Ds6 => 75,
        Note::Eb6 => 75,
        Note::E6 => 76,
        Note::F6 => 77,
        Note::Fs6 => 78,
        Note::Gb6 => 78,
        Note::G6 => 79,
        Note::Gs6 => 80,
        Note::Ab6 => 80,
        Note::A6 => 81,
        Note::As6 => 82,
        Note::Bb6 => 82,
        Note::B6 => 83,
        Note::C7 => 84,
        Note::Cs7 => 85,
        Note::Db7 => 85,
        Note::D7 => 86,
        Note::Ds7 => 87,
        Note::Eb7 => 87,
        Note::E7 => 88,
        Note::F7 => 89,
        Note::Fs7 => 90,
        Note::Gb7 => 90,
        Note::G7 => 91,
        Note::Gs7 => 92,
        Note::Ab7 => 92,
        Note::A7 => 93,
        Note::As7 => 94,
        Note::Bb7 => 94,
        Note::B7 => 95,
        Note::C8 => 96,
        Note::Cs8 => 97,
        Note::Db8 => 97,
        Note::D8 => 98,
        Note::Ds8 => 99,
        Note::Eb8 => 99,
        Note::E8 => 100,
        Note::F8 => 101,
        Note::Fs8 => 102,
        Note::Gb8 => 102,
        Note::G8 => 103,
        Note::Gs8 => 104,
        Note::Ab8 => 104,
        Note::A8 => 105,
        Note::As8 => 106,
        Note::Bb8 => 106,
        Note::B8 => 107,
    }
}

impl Note {

    /// The pitch of this note, in semitones above C0 (see `note_semitone`).
    pub fn semitone(&self) -> (s: u8)
        ensures
            s == note_semitone(*self),
            s < 108,
    {
        match self {
            Note::C0 => 0,
            Note::Cs0 => 1,
            Note::Db0 => 1,
            Note::D0 => 2,
            Note::Ds0 => 3,
            Note::Eb0 => 3,
            Note::E0 => 4,
            Note::F0 => 5,
            Note::Fs0 => 6,
            Note::Gb0 => 6,
            Note::G0 => 7,
            Note::Gs0 => 8,
            Note::Ab0 => 8,
            Note::A0 => 9,
            Note::As0 => 10,
            Note::Bb0 => 10,
            Note::B0 => 11,
            Note::C1 => 12,
            Note::Cs1 => 13,
            Note::Db1 => 13,
            Note::D1 => 14,
            Note::Ds1 => 15,
            Note::Eb1 => 15,
            Note::E1 => 16,
            Note::F1 => 17,
            Note::Fs1 => 18,
            Note::Gb1 => 18,
            Note::G1 => 19,
            Note::Gs1 => 20,
            Note::Ab1 => 20,
            Note::A1 => 21,
            Note::As1 => 22,
            Note::Bb1 => 22,
            Note::B1 => 23,
            Note::C2 => 24,
            Note::Cs2 => 25,
            Note::Db2 => 25,
            Note::D2 => 26,
            Note::Ds2 => 27,
            Note::Eb2 => 27,
            Note::E2 => 28,
            Note::F2 => 29,
            Note::Fs2 => 30,
            Note::Gb2 => 30,
            Note::G2 => 31,
            Note::Gs2 => 32,
            Note::Ab2 => 32,
            Note::A2 => 33,
            Note::As2 => 34,
            Note::Bb2 => 34,
            Note::B2 => 35,
            Note::C3 => 36,
            Note::Cs3 => 37,
            Note::Db3 => 37,
            Note::D3 => 38,
            Note::Ds3 => 39,
            Note::Eb3 => 39,
            Note::E3 => 40,
            Note::F3 => 41,
            Note::Fs3 => 42,
            Note::Gb3 => 42,
            Note::G3 => 43,
            Note::Gs3 => 44,
            Note::Ab3 => 44,
            Note::A3 => 45,
            Note::As3 => 46,
            Note::Bb3 => 46,
            Note::B3 => 47,
            Note::C4 => 48,
            Note::Cs4 => 49,
            Note::Db4 => 49,
            Note::D4 => 50,
            Note::Ds4 => 51,
            Note::Eb4 => 51,
            Note::E4 => 52,
            Note::F4 => 53,
            Note::Fs4 => 54,
            Note::Gb4 => 54,
            Note::G4 => 55,
            Note::Gs4 => 56,
            Note::Ab4 => 56,
            Note::A4 => 57,
            Note::As4 => 58,
            Note::Bb4 => 58,
            Note::B4 => 59,
            Note::C5 => 60,
            Note::Cs5 => 61,
            Note::Db5 => 61,
            Note::D5 => 62,
            Note::Ds5 => 63,
            Note::Eb5 => 63,
            Note::E5 => 64,
            Note::F5 => 65,
            Note::Fs5 => 66,
            Note::Gb5 => 66,
            Note::G5 => 67,
            Note::Gs5 => 68,
            Note::Ab5 => 68,
            Note::A5 => 69,
            Note::As5 => 70,
            Note::Bb5 => 70,
            Note::B5 => 71,
            Note::C6 => 72,
            Note::Cs6 => 73,
            Note::Db6 => 73,
            Note::D6 => 74,
            Note::Ds6 => 75,
            Note::Eb6 => 75,
            Note::E6 => 76,
            Note::F6 => 77,
            Note::Fs6 => 78,
            Note::Gb6 => 78,
            Note::G6 => 79,
            Note::Gs6 => 80,
            Note::Ab6 => 80,
            Note::A6 => 81,
            Note::As6 => 82,
            Note::Bb6 => 82,
            Note::B6 => 83,
            Note::C7 => 84,
            Note::Cs7 => 85,
            Note::Db7 => 85,
            Note::D7 => 86,
            Note::Ds7 => 87,
            Note::Eb7 => 87,
            Note::E7 => 88,
            Note::F7 => 89,
            Note::Fs7 => 90,
            Note::Gb7 => 90,
            Note::G7 => 91,
            Note::Gs7 => 92,
            Note::Ab7 => 92,
            Note::A7 => 93,
            Note::As7 => 94,
            Note::Bb7 => 94,
            Note::B7 => 95,
            Note::C8 => 96,
            Note::Cs8 => 97,
            Note::Db8 => 97,
            Note::D8 => 98,
            Note::Ds8 => 99,
            Note::Eb8 => 99,
            Note::E8 => 100,
            Note::F8 => 101,
            Note::Fs8 => 102,
            Note::Gb8 => 102,
            Note::G8 => 103,
            Note::Gs8 => 104,
            Note::Ab8 => 104,
            Note::A8 => 105,
            Note::As8 => 106,
            Note::Bb8 => 106,
            Note::B8 => 107,
        }
    }
    /// How this note is written, e.g. "C#4" or "Bb2".
    pub fn name(&self) -> (s: String)
        ensures
            s@ == note_name(*self),
    {
        match self {
            Note::C0 => String::from_str("C0"),
            Note::Cs0 => String::from_str("C#0"),
            Note::Db0 => String::from_str("Db0"),
            Note::D0 => String::from_str("D0"),
            Note::Ds0 => String::from_str("D#0"),
            Note::Eb0 => String::from_str("Eb0"),
            Note::E0 => String::from_str("E0"),
            Note::F0 => String::from_str("F0"),
            Note::Fs0 => String::from_str("F#0"),
            Note::Gb0 => String::from_str("Gb0"),
            Note::G0 => String::from_str("G0"),
            Note::Gs0 => String::from_str("G#0"),
            Note::Ab0 => String::from_str("Ab0"),
            Note::A0 => String::from_str("A0"),
            Note::As0 => String::from_str("A#0"),
            Note::Bb0 => String::from_str("Bb0"),
            Note::B0 => String::from_str("B0"),
            Note::C1 => String::from_str("C1"),
            Note::Cs1 => String::from_str("C#1"),
            Note::Db1 => String::from_str("Db1"),
            Note::D1 => String::from_str("D1"),
            Note::Ds1 => String::from_str("D#1"),
            Note::Eb1 => String::from_str("Eb1"),
            Note::E1 => String::from_str("E1"),
            Note::F1 => String::from_str("F1"),
            Note::Fs1 => String::from_str("F#1"),
            Note::Gb1 => String::from_str("Gb1"),
            Note::G1 => String::from_str("G1"),
            Note::Gs1 => String::from_str("G#1"),
            Note::Ab1 => String::from_str("Ab1"),
            Note::A1 => String::from_str("A1"),
            Note::As1 => String::from_str("A#1"),
            Note::Bb1 => String::from_str("Bb1"),
            Note::B1 => String::from_str("B1"),
            Note::C2 => String::from_str("C2"),
            Note::Cs2 => String::from_str("C#2"),
            Note::Db2 => String::from_str("Db2"),
            Note::D2 => String::from_str("D2"),
            Note::Ds2 => String::from_str("D#2"),
            Note::Eb2 => String::from_str("Eb2"),
            Note::E2 => String::from_str("E2"),
            Note::F2 => String::from_str("F2"),
            Note::Fs2 => String::from_str("F#2"),
            Note::Gb2 => String::from_str("Gb2"),
            Note::G2 => String::from_str("G2"),
            Note::Gs2 => String::from_str("G#2"),
            Note::Ab2 => String::from_str("Ab2"),
            Note::A2 => String::from_str("A2"),
            Note::As2 => String::from_str("A#2"),
            Note::Bb2 => String::from_str("Bb2"),
            Note::B2 => String::from_str("B2"),
            Note::C3 => String::from_str("C3"),
            Note::Cs3 => String::from_str("C#3"),
            Note::Db3 => String::from_str("Db3"),
            Note::D3 => String::from_str("D3"),
            Note::Ds3 => String::from_str("D#3"),
            Note::Eb3 => String::from_str("Eb3"),
            Note::E3 => String::from_str("E3"),
            Note::F3 => String::from_str("F3"),
            Note::Fs3 => String::from_str("F#3"),
            Note::Gb3 => String::from_str("Gb3"),
            Note::G3 => String::from_str("G3"),
            Note::Gs3 => String::from_str("G#3"),
            Note::Ab3 => String::from_str("Ab3"),
            Note::A3 => String::from_str("A3"),
            Note::As3 => String::from_str("A#3"),
            Note::Bb3 => String::from_str("Bb3"),
            Note::B3 => String::from_str("B3"),
            Note::C4 => String::from_str("C4"),
            Note::Cs4 => String::from_str("C#4"),
            Note::Db4 => String::from_str("Db4"),
            Note::D4 => String::from_str("D4"),
            Note::Ds4 => String::from_str("D#4"),
            Note::Eb4 => String::from_str("Eb4"),
            Note::E4 => String::from_str("E4"),
            Note::F4 => String::from_str("F4"),
            Note::Fs4 => String::from_str("F#4"),
            Note::Gb4 => String::from_str("Gb4"),
            Note::G4 => String::from_str("G4"),
            Note::Gs4 => String::from_str("G#4"),
            Note::Ab4 => String::from_str("Ab4"),
            Note::A4 => String::from_str("A4"),
            Note::As4 => String::from_str("A#4"),
            Note::Bb4 => String::from_str("Bb4"),
            Note::B4 => String::from_str("B4"),
            Note::C5 => String::from_str("C5"),
            Note::Cs5 => String::from_str("C#5"),
            Note::Db5 => String::from_str("Db5"),
            Note::D5 => String::from_str("D5"),
            Note::Ds5 => String::from_str("D#5"),
            Note::Eb5 => String::from_str("Eb5"),
            Note::E5 => String::from_str("E5"),
            Note::F5 => String::from_str("F5"),
            Note::Fs5 => String::from_str("F#5"),
            Note::Gb5 => String::from_str("Gb5"),
            Note::G5 => String::from_str("G5"),
            Note::Gs5 => String::from_str("G#5"),
            Note::Ab5 => String::from_str("Ab5"),
            Note::A5 => String::from_str("A5"),
            Note::As5 => String::from_str("A#5"),
            Note::Bb5 => String::from_str("Bb5"),
            Note::B5 => String::from_str("B5"),
            Note::C6 => String::from_str("C6"),
            Note::Cs6 => String::from_str("C#6"),
            Note::Db6 => String::from_str("Db6"),
            Note::D6 => String::from_str("D6"),
            Note::Ds6 => String::from_str("D#6"),
            Note::Eb6 => String::from_str("Eb6"),
            Note::E6 => String::from_str("E6"),
            Note::F6 => String::from_str("F6"),
            Note::Fs6 => String::from_str("F#6"),
            Note::Gb6 => String::from_str("Gb6"),
            Note::G6 => String::from_str("G6"),
            Note::Gs6 => String::from_str("G#6"),
            Note::Ab6 => String::from_str("Ab6"),
            Note::A6 => String::from_str("A6"),
            Note::As6 => String::from_str("A#6"),
            Note::Bb6 => String::from_str("Bb6"),
            Note::B6 => String::from_str("B6"),
            Note::C7 => String::from_str("C7"),
            Note::Cs7 => String::from_str("C#7"),
            Note::Db7 => String::from_str("Db7"),
            Note::D7 => String::from_str("D7"),
            Note::Ds7 => String::from_str("D#7"),
            Note::Eb7 => String::from_str("Eb7"),
            Note::E7 => String::from_str("E7"),
            Note::F7 => String::from_str("F7"),
            Note::Fs7 => String::from_str("F#7"),
            Note::Gb7 => String::from_str("Gb7"),
            Note::G7 => String::from_str("G7"),
            Note::Gs7 => String::from_str("G#7"),
            Note::Ab7 => String::from_str("Ab7"),
            Note::A7 => String::from_str("A7"),
            Note::As7 => String::from_str("A#7"),
            Note::Bb7 => String::from_str("Bb7"),
            Note::B7 => String::from_str("B7"),
            Note::C8 => String::from_str("C8"),
            Note::Cs8 => String::from_str("C#8"),
            Note::Db8 => String::from_str("Db8"),
            Note::D8 => String::from_str("D8"),
            Note::Ds8 => String::from_str("D#8"),
            Note::Eb8 => String::from_str("Eb8"),
            Note::E8 => String::from_str("E8"),
            Note::F8 => String::from_str("F8"),
            Note::Fs8 => String::from_str("F#8"),
            Note::Gb8 => String::from_str("Gb8"),
            Note::G8 => String::from_str("G8"),
            Note::Gs8 => String::from_str("G#8"),
            Note::Ab8 => String::from_str("Ab8"),
            Note::A8 => String::from_str("A8"),
            Note::As8 => String::from_str("A#8"),
            Note::Bb8 => String::from_str("Bb8"),
            Note::B8 => String::from_str("B8"),
        }
    }
}

/// How a note is spelled: its letter, its accidental (0 for none, 1 for a
/// sharp, 2 for a flat) and its octave.
pub open spec fn note_parts(n: Note) -> (char, int, nat) {
    match n {
        Note::C0 => ('C', 0, 0),
        Note::Cs0 => ('C', 1, 0),
        Note::Db0 => ('D', 2, 0),
        Note::D0 => ('D', 0, 0),
        Note::Ds0 => ('D', 1, 0),
        Note::Eb0 => ('E', 2, 0),
        Note::E0 => ('E', 0, 0),
        Note::F0 => ('F', 0, 0),
        Note::Fs0 => ('F', 1, 0),
        Note::Gb0 => ('G', 2, 0),
        Note::G0 => ('G', 0, 0),
        Note::Gs0 => ('G', 1, 0),
        Note::Ab0 => ('A', 2, 0),
        Note::A0 => ('A', 0, 0),
        Note::As0 => ('A', 1, 0),
        Note::Bb0 => ('B', 2, 0),
        Note::B0 => ('B', 0, 0),
        Note::C1 => ('C', 0, 1),
        Note::Cs1 => ('C', 1, 1),
        Note::Db1 => ('D', 2, 1),
        Note::D1 => ('D', 0, 1),
        Note::Ds1 => ('D', 1, 1),
        Note::Eb1 => ('E', 2, 1),
        Note::E1 => ('E', 0, 1),
        Note::F1 => ('F', 0, 1),
        Note::Fs1 => ('F', 1, 1),
        Note::Gb1 => ('G', 2, 1),
        Note::G1 => ('G', 0, 1),
        Note::Gs1 => ('G', 1, 1),
        Note::Ab1 => ('A', 2, 1),
        Note::A1 => ('A', 0, 1),
        Note::As1 => ('A', 1, 1),
        Note::Bb1 => ('B', 2, 1),
        Note::B1 => ('B', 0, 1),
        Note::C2 => ('C', 0, 2),
        Note::Cs2 => ('C', 1, 2),
        Note::Db2 => ('D', 2, 2),
        Note::D2 => ('D', 0, 2),
        Note::Ds2 => ('D', 1, 2),
        Note::Eb2 => ('E', 2, 2),
        Note::E2 => ('E', 0, 2),
        Note::F2 => ('F', 0, 2),
        Note::Fs2 => ('F', 1, 2),
        Note::Gb2 => ('G', 2, 2),
        Note::G2 => ('G', 0, 2),
        Note::Gs2 => ('G', 1, 2),
        Note::Ab2 => ('A', 2, 2),
        Note::A2 => ('A', 0, 2),
        Note::As2 => ('A', 1, 2),
        Note::Bb2 => ('B', 2, 2),
        Note::B2 => ('B', 0, 2),
        Note::C3 => ('C', 0, 3),
        Note::Cs3 => ('C', 1, 3),
        Note::Db3 => ('D', 2, 3),
        Note::D3 => ('D', 0, 3),
        Note::Ds3 => ('D', 1, 3),
        Note::Eb3 => ('E', 2, 3),
        Note::E3 => ('E', 0, 3),
        Note::F3 => ('F', 0, 3),
        Note::Fs3 => ('F', 1, 3),
        Note::Gb3 => ('G', 2, 3),
        Note::G3 => ('G', 0, 3),
        Note::Gs3 => ('G', 1, 3),
        Note::Ab3 => ('A', 2, 3),
        Note::A3 => ('A', 0, 3),
        Note::As3 => ('A', 1, 3),
        Note::Bb3 => ('B', 2, 3),
        Note::B3 => ('B', 0, 3),
        Note::C4 => ('C', 0, 4),
        Note::Cs4 => ('C', 1, 4),
        Note::Db4 => ('D', 2, 4),
        Note::D4 => ('D', 0, 4),
        Note::Ds4 => ('D', 1, 4),
        Note::Eb4 => ('E', 2, 4),
        Note::E4 => ('E', 0, 4),
        Note::F4 => ('F', 0, 4),
        Note::Fs4 => ('F', 1, 4),
        Note::Gb4 => ('G', 2, 4),
        Note::G4 => ('G', 0, 4),
        Note::Gs4 => ('G', 1, 4),
        Note::Ab4 => ('A', 2, 4),
        Note::A4 => ('A', 0, 4),
        Note::As4 => ('A', 1, 4),
        Note::Bb4 => ('B', 2, 4),
        Note::B4 => ('B', 0, 4),
        Note::C5 => ('C', 0, 5),
        Note::Cs5 => ('C', 1, 5),
        Note::Db5 => ('D', 2, 5),
        Note::D5 => ('D', 0, 5),
        Note::Ds5 => ('D', 1, 5),
        Note::Eb5 => ('E', 2, 5),
        Note::E5 => ('E', 0, 5),
        Note::F5 => ('F', 0, 5),
        Note::Fs5 => ('F', 1, 5),
        Note::Gb5 => ('G', 2, 5),
        Note::G5 => ('G', 0, 5),
        Note::Gs5 => ('G', 1, 5),
        Note::Ab5 => ('A', 2, 5),
        Note::A5 => ('A', 0, 5),
        Note::As5 => ('A', 1, 5),
        Note::Bb5 => ('B', 2, 5),
        Note::B5 => ('B', 0, 5),
        Note::C6 => ('C', 0, 6),
        Note::Cs6 => ('C', 1, 6),
        Note::Db6 => ('D', 2, 6),
        Note::D6 => ('D', 0, 6),
        Note::Ds6 => ('D', 1, 6),
        Note::Eb6 => ('E', 2, 6),
        Note::E6 => ('E', 0, 6),
        Note::F6 => ('F', 0, 6),
        Note::Fs6 => ('F', 1, 6),
        Note::Gb6 => ('G', 2, 6),
        Note::G6 => ('G', 0, 6),
        Note::Gs6 => ('G', 1, 6),
        Note::Ab6 => ('A', 2, 6),
        Note::A6 => ('A', 0, 6),
        Note::As6 => ('A', 1, 6),
        Note::Bb6 => ('B', 2, 6),
        Note::B6 => ('B', 0, 6),
        Note::C7 => ('C', 0, 7),
        Note::Cs7 => ('C', 1, 7),
        Note::Db7 => ('D', 2, 7),
        Note::D7 => ('D', 0, 7),
        Note::Ds7 => ('D', 1, 7),
        Note::Eb7 => ('E', 2, 7),
        Note::E7 => ('E', 0, 7),
        Note::F7 => ('F', 0, 7),
        Note::Fs7 => ('F', 1, 7),
        Note::Gb7 => ('G', 2, 7),
        Note::G7 => ('G', 0, 7),
        Note::Gs7 => ('G', 1, 7),
        Note::Ab7 => ('A', 2, 7),
        Note::A7 => ('A', 0, 7),
        Note::As7 => ('A', 1, 7),
        Note::Bb7 => ('B', 2, 7),
        Note::B7 => ('B', 0, 7),
        Note::C8 => ('C', 0, 8),
        Note::Cs8 => ('C', 1, 8),
        Note::Db8 => ('D', 2, 8),
        Note::D8 => ('D', 0, 8),
        Note::Ds8 => ('D', 1, 8),
        Note::Eb8 => ('E', 2, 8),
        Note::E8 => ('E', 0, 8),
        Note::F8 => ('F', 0, 8),
        Note::Fs8 => ('F', 1, 8),
        Note::Gb8 => ('G', 2, 8),
        Note::G8 => ('G', 0, 8),
        Note::Gs8 => ('G', 1, 8),
        Note::Ab8 => ('A', 2, 8),
        Note::A8 => ('A', 0, 8),
        Note::As8 => ('A', 1, 8),
        Note::Bb8 => ('B', 2, 8),
        Note::B8 => ('B', 0, 8),
    }
}

/// How an accidental is written: nothing, "#" for a sharp, "b" for a flat.
pub open spec fn accidental_text(accidental: int) -> Seq<char> {
    if accidental == 1 {
        seq!['#']
    } else if accidental == 2 {
        seq!['b']
    } else {
        Seq::empty()
    }
}

/// The digit of an octave.
pub open spec fn octave_digit(octave: nat) -> char {
    if octave == 0 {
        '0'
    } else if octave == 1 {
        '1'
    } else if octave == 2 {
        '2'
    } else if octave == 3 {
        '3'
    } else if octave == 4 {
        '4'
    } else if octave == 5 {
        '5'
    } else if octave == 6 {
        '6'
    } else if octave == 7 {
        '7'
    } else {
        '8'
    }
}

/// The text of a spelling: the letter, the accidental, the octave digit.
pub open spec fn spelled(parts: (char, int, nat)) -> Seq<char> {
    seq![parts.0] + accidental_text(parts.1) + seq![octave_digit(parts.2)]
}

/// The note with a spelling.
pub open spec fn note_of_parts(letter: char, accidental: int, octave: nat) -> Note {
    if letter == 'C' && accidental == 0 {
        if octave == 0 {
            Note::C0
        } else if octave == 1 {
            Note::C1
        } else if octave == 2 {
            Note::C2
        } else if octave == 3 {
            Note::C3
        } else if octave == 4 {
            Note::C4
        } else if octave == 5 {
            Note::C5
        } else if octave == 6 {
            Note::C6
        } else if octave == 7 {
            Note::C7
        } else {
            Note::C8
        }
    } else if letter == 'C' && accidental == 1 {
        if octave == 0 {
            Note::Cs0
        } else if octave == 1 {
            Note::Cs1
        } else if octave == 2 {
            Note::Cs2
        } else if octave == 3 {
            Note::Cs3
        } else if octave == 4 {
            Note::Cs4
        } else if octave == 5 {
            Note::Cs5
        } else if octave == 6 {
            Note::Cs6
        } else if octave == 7 {
            Note::Cs7
        } else {
            Note::Cs8
        }
    } else if letter == 'D' && accidental == 2 {
        if octave == 0 {
            Note::Db0
        } else if octave == 1 {
            Note::Db1
        } else if octave == 2 {
            Note::Db2
        } else if octave == 3 {
            Note::Db3
        } else if octave == 4 {
            Note::Db4
        } else if octave == 5 {
            Note::Db5
        } else if octave == 6 {
            Note::Db6
        } else if octave == 7 {
            Note::Db7
        } else {
            Note::Db8
        }
    } else if letter == 'D' && accidental == 0 {
        if octave == 0 {
            Note::D0
        } else if octave == 1 {
            Note::D1
        } else if octave == 2 {
            Note::D2
        } else if octave == 3 {
            Note::D3
        } else if octave == 4 {
            Note::D4
        } else if octave == 5 {
            Note::D5
        } else if octave == 6 {
            Note::D6
        } else if octave == 7 {
            Note::D7
        } else {
            Note::D8
        }
    } else if letter == 'D' && accidental == 1 {
        if octave == 0 {
            Note::Ds0
        } else if octave == 1 {
            Note::Ds1
        } else if octave == 2 {
            Note::Ds2
        } else if octave == 3 {
            Note::Ds3
        } else if octave == 4 {
            Note::Ds4
        } else if octave == 5 {
            Note::Ds5
        } else if octave == 6 {
            Note::Ds6
        } else if octave == 7 {
            Note::Ds7
        } else {
            Note::Ds8
        }
    } else if letter == 'E' && accidental == 2 {
        if octave == 0 {
            Note::Eb0
        } else if octave == 1 {
            Note::Eb1
        } else if octave == 2 {
            Note::Eb2
        } else if octave == 3 {
            Note::Eb3
        } else if octave == 4 {
            Note::Eb4
        } else if octave == 5 {
            Note::Eb5
        } else if octave == 6 {
            Note::Eb6
        } else if octave == 7 {
            Note::Eb7
        } else {
            Note::Eb8
        }
    } else if letter == 'E' && accidental == 0 {
        if octave == 0 {
            Note::E0
        } else if octave == 1 {
            Note::E1
        } else if octave == 2 {
            Note::E2
        } else if octave == 3 {
            Note::E3
        } else if octave == 4 {
            Note::E4
        } else if octave == 5 {
            Note::E5
        } else if octave == 6 {
            Note::E6
        } else if octave == 7 {
            Note::E7
        } else {
            Note::E8
        }
    } else if letter == 'F' && accidental == 0 {
        if octave == 0 {
            Note::F0
        } else if octave == 1 {
            Note::F1
        } else if octave == 2 {
            Note::F2
        } else if octave == 3 {
            Note::F3
        } else if octave == 4 {
            Note::F4
        } else if octave == 5 {
            Note::F5
        } else if octave == 6 {
            Note::F6
        } else if octave == 7 {
            Note::F7
        } else {
            Note::F8
        }
    } else if letter == 'F' && accidental == 1 {
        if octave == 0 {
            Note::Fs0
        } else if octave == 1 {
            Note::Fs1
        } else if octave == 2 {
            Note::Fs2
        } else if octave == 3 {
            Note::Fs3
        } else if octave == 4 {
            Note::Fs4
        } else if octave == 5 {
            Note::Fs5
        } else if octave == 6 {
            Note::Fs6
        } else if octave == 7 {
            Note::Fs7
        } else {
            Note::Fs8
        }
    } else if letter == 'G' && accidental == 2 {
        if octave == 0 {
            Note::Gb0
        } else if octave == 1 {
            Note::Gb1
        } else if octave == 2 {
            Note::Gb2
        } else if octave == 3 {
            Note::Gb3
        } else if octave == 4 {
            Note::Gb4
        } else if octave == 5 {
            Note::Gb5
        } else if octave == 6 {
            Note::Gb6
        } else if octave == 7 {
            Note::Gb7
        } else {
            Note::Gb8
        }
    } else if letter == 'G' && accidental == 0 {
        if octave == 0 {
            Note::G0
        } else if octave == 1 {
            Note::G1
        } else if octave == 2 {
            Note::G2
        } else if octave == 3 {
            Note::G3
        } else if octave == 4 {
            Note::G4
        } else if octave == 5 {
            Note::G5
        } else if octave == 6 {
            Note::G6
        } else if octave == 7 {
            Note::G7
        } else {
            Note::G8
        }
    } else if letter == 'G' && accidental == 1 {
        if octave == 0 {
            Note::Gs0
        } else if octave == 1 {
            Note::Gs1
        } else if octave == 2 {
            Note::Gs2
        } else if octave == 3 {
            Note::Gs3
        } else if octave == 4 {
            Note::Gs4
        } else if octave == 5 {
            Note::Gs5
        } else if octave == 6 {
            Note::Gs6
        } else if octave == 7 {
            Note::Gs7
        } else {
            Note::Gs8
        }
    } else if letter == 'A' && accidental == 2 {
        if octave == 0 {
            Note::Ab0
        } else if octave == 1 {
            Note::Ab1
        } else if octave == 2 {
            Note::Ab2
        } else if octave == 3 {
            Note::Ab3
        } else if octave == 4 {
            Note::Ab4
        } else if octave == 5 {
            Note::Ab5
        } else if octave == 6 {
            Note::Ab6
        } else if octave == 7 {
            Note::Ab7
        } else {
            Note::Ab8
        }
    } else if letter == 'A' && accidental == 0 {
        if octave == 0 {
            Note::A0
        } else if octave == 1 {
            Note::A1
        } else if octave == 2 {
            Note::A2
        } else if octave == 3 {
            Note::A3
        } else if octave == 4 {
            Note::A4
        } else if octave == 5 {
            Note::A5
        } else if octave == 6 {
            Note::A6
        } else if octave == 7 {
            Note::A7
        } else {
            Note::A8
        }
    } else if letter == 'A' && accidental == 1 {
        if octave == 0 {
            Note::As0
        } else if octave == 1 {
            Note::As1
        } else if octave == 2 {
            Note::As2
        } else if octave == 3 {
            Note::As3
        } else if octave == 4 {
            Note::As4
        } else if octave == 5 {
            Note::As5
        } else if octave == 6 {
            Note::As6
        } else if octave == 7 {
            Note::As7
        } else {
            Note::As8
        }
    } else if letter == 'B' && accidental == 2 {
        if octave == 0 {
            Note::Bb0
        } else if octave == 1 {
            Note::Bb1
        } else if octave == 2 {
            Note::Bb2
        } else if octave == 3 {
            Note::Bb3
        } else if octave == 4 {
            Note::Bb4
        } else if octave == 5 {
            Note::Bb5
        } else if octave == 6 {
            Note::Bb6
        } else if octave == 7 {
            Note::Bb7
        } else {
            Note::Bb8
        }
    } else if letter == 'B' && accidental == 0 {
        if octave == 0 {
            Note::B0
        } else if octave == 1 {
            Note::B1
        } else if octave == 2 {
            Note::B2
        } else if octave == 3 {
            Note::B3
        } else if octave == 4 {
            Note::B4
        } else if octave == 5 {
            Note::B5
        } else if octave == 6 {
            Note::B6
        } else if octave == 7 {
            Note::B7
        } else {
            Note::B8
        }
    } else {
        Note::C0
    }
}

proof fn lemma_parts_determine_note(n: Note)
    ensures
        note_of_parts(note_parts(n).0, note_parts(n).1, note_parts(n).2) == n,
        note_parts(n).2 <= 8,
        0 <= note_parts(n).1 <= 2,
{
}

proof fn lemma_spelling_octave_0(n: Note)
    requires
        note_parts(n).2 == 0,
    ensures
        note_name(n) =~= spelled(note_parts(n)),
{
    match n {
        Note::C0 => {
            reveal_strlit("C0");
        },
        Note::Cs0 => {
            reveal_strlit("C#0");
        },
        Note::Db0 => {
            reveal_strlit("Db0");
        },
        Note::D0 => {
            reveal_strlit("D0");
        },
        Note::Ds0 => {
            reveal_strlit("D#0");
        },
        Note::Eb0 => {
            reveal_strlit("Eb0");
        },
        Note::E0 => {
            reveal_strlit("E0");
        },
        Note::F0 => {
            reveal_strlit("F0");
        },
        Note::Fs0 => {
            reveal_strlit("F#0");
        },
        Note::Gb0 => {
            reveal_strlit("Gb0");
        },
        Note::G0 => {
            reveal_strlit("G0");
        },
        Note::Gs0 => {
            reveal_strlit("G#0");
        },
        Note::Ab0 => {
            reveal_strlit("Ab0");
        },
        Note::A0 => {
            reveal_strlit("A0");
        },
        Note::As0 => {
            reveal_strlit("A#0");
        },
        Note::Bb0 => {
            reveal_strlit("Bb0");
        },
        Note::B0 => {
            reveal_strlit("B0");
        },
        _ => {},
    }
}

proof fn lemma_spelling_octave_1(n: Note)
    requires
        note_parts(n).2 == 1,
    ensures
        note_name(n) =~= spelled(note_parts(n)),
{
    match n {
        Note::C1 => {
            reveal_strlit("C1");
        },
        Note::Cs1 => {
            reveal_strlit("C#1");
        },
        Note::Db1 => {
            reveal_strlit("Db1");
        },
        Note::D1 => {
            reveal_strlit("D1");
        },
        Note::Ds1 => {
            reveal_strlit("D#1");
        },
        Note::Eb1 => {
            reveal_strlit("Eb1");
        },
        Note::E1 => {
            reveal_strlit("E1");
        },
        Note::F1 => {
            reveal_strlit("F1");
        },
        Note::Fs1 => {
            reveal_strlit("F#1");
        },
        Note::Gb1 => {
            reveal_strlit("Gb1");
        },
        Note::G1 => {
            reveal_strlit("G1");
        },
        Note::Gs1 => {
            reveal_strlit("G#1");
        },
        Note::Ab1 => {
            reveal_strlit("Ab1");
        },
        Note::A1 => {
            reveal_strlit("A1");
        },
        Note::As1 => {
            reveal_strlit("A#1");
        },
        Note::Bb1 => {
            reveal_strlit("Bb1");
        },
        Note::B1 => {
            reveal_strlit("B1");
        },
        _ => {},
    }
}

proof fn lemma_spelling_octave_2(n: Note)
    requires
        note_parts(n).2 == 2,
    ensures
        note_name(n) =~= spelled(note_parts(n)),
{
    match n {
        Note::C2 => {
            reveal_strlit("C2");
        },
        Note::Cs2 => {
            reveal_strlit("C#2");
        },
        Note::Db2 => {
            reveal_strlit("Db2");
        },
        Note::D2 => {
            reveal_strlit("D2");
        },
        Note::Ds2 => {
            reveal_strlit("D#2");
        },
        Note::Eb2 => {
            reveal_strlit("Eb2");
        },
        Note::E2 => {
            reveal_strlit("E2");
        },
        Note::F2 => {
            reveal_strlit("F2");
        },
        Note::Fs2 => {
            reveal_strlit("F#2");
        },
        Note::Gb2 => {
            reveal_strlit("Gb2");
        },
        Note::G2 => {
            reveal_strlit("G2");
        },
        Note::Gs2 => {
            reveal_strlit("G#2");
        },
        Note::Ab2 => {
            reveal_strlit("Ab2");
        },
        Note::A2 => {
            reveal_strlit("A2");
        },
        Note::As2 => {
            reveal_strlit("A#2");
        },
        Note::Bb2 => {
            reveal_strlit("Bb2");
        },
        Note::B2 => {
            reveal_strlit("B2");
        },
        _ => {},
    }
}

proof fn lemma_spelling_octave_3(n: Note)
    requires
        note_parts(n).2 == 3,
    ensures
        note_name(n) =~= spelled(note_parts(n)),
{
    match n {
        Note::C3 => {
            reveal_strlit("C3");
        },
        Note::Cs3 => {
            reveal_strlit("C#3");
        },
        Note::Db3 => {
            reveal_strlit("Db3");
        },
        Note::D3 => {
            reveal_strlit("D3");
        },
        Note::Ds3 => {
            reveal_strlit("D#3");
        },
        Note::Eb3 => {
            reveal_strlit("Eb3");
        },
        Note::E3 => {
            reveal_strlit("E3");
        },
        Note::F3 => {
            reveal_strlit("F3");
        },
        Note::Fs3 => {
            reveal_strlit("F#3");
        },
        Note::Gb3 => {
            reveal_strlit("Gb3");
        },
        Note::G3 => {
            reveal_strlit("G3");
        },
        Note::Gs3 => {
            reveal_strlit("G#3");
        },
        Note::Ab3 => {
            reveal_strlit("Ab3");
        },
        Note::A3 => {
            reveal_strlit("A3");
        },
        Note::As3 => {
            reveal_strlit("A#3");
        },
        Note::Bb3 => {
            reveal_strlit("Bb3");
        },
        Note::B3 => {
            reveal_strlit("B3");
        },
        _ => {},
    }
}

proof fn lemma_spelling_octave_4(n: Note)
    requires
        note_parts(n).2 == 4,
    ensures
        note_name(n) =~= spelled(note_parts(n)),
{
    match n {
        Note::C4 => {
            reveal_strlit("C4");
        },
        Note::Cs4 => {
            reveal_strlit("C#4");
        },
        Note::Db4 => {
            reveal_strlit("Db4");
        },
        Note::D4 => {
            reveal_strlit("D4");
        },
        Note::Ds4 => {
            reveal_strlit("D#4");
        },
        Note::Eb4 => {
            reveal_strlit("Eb4");
        },
        Note::E4 => {
            reveal_strlit("E4");
        },
        Note::F4 => {
            reveal_strlit("F4");
        },
        Note::Fs4 => {
            reveal_strlit("F#4");
        },
        Note::Gb4 => {
            reveal_strlit("Gb4");
        },
        Note::G4 => {
            reveal_strlit("G4");
        },
        Note::Gs4 => {
            reveal_strlit("G#4");
        },
        Note::Ab4 => {
            reveal_strlit("Ab4");
        },
        Note::A4 => {
            reveal_strlit("A4");
        },
        Note::As4 => {
            reveal_strlit("A#4");
        },
        Note::Bb4 => {
            reveal_strlit("Bb4");
        },
        Note::B4 => {
            reveal_strlit("B4");
        },
        _ => {},
    }
}

proof fn lemma_spelling_octave_5(n: Note)
    requires
        note_parts(n).2 == 5,
    ensures
        note_name(n) =~= spelled(note_parts(n)),
{
    match n {
        Note::C5 => {
            reveal_strlit("C5");
        },
        Note::Cs5 => {
            reveal_strlit("C#5");
        },
        Note::Db5 => {
            reveal_strlit("Db5");
        },
        Note::D5 => {
            reveal_strlit("D5");
        },
        Note::Ds5 => {
            reveal_strlit("D#5");
        },
        Note::Eb5 => {
            reveal_strlit("Eb5");
        },
        Note::E5 => {
            reveal_strlit("E5");
        },
        Note::F5 => {
            reveal_strlit("F5");
        },
        Note::Fs5 => {
            reveal_strlit("F#5");
        },
        Note::Gb5 => {
            reveal_strlit("Gb5");
        },
        Note::G5 => {
            reveal_strlit("G5");
        },
        Note::Gs5 => {
            reveal_strlit("G#5");
        },
        Note::Ab5 => {
            reveal_strlit("Ab5");
        },
        Note::A5 => {
            reveal_strlit("A5");
        },
        Note::As5 => {
            reveal_strlit("A#5");
        },
        Note::Bb5 => {
            reveal_strlit("Bb5");
        },
        Note::B5 => {
            reveal_strlit("B5");
        },
        _ => {},
    }
}

proof fn lemma_spelling_octave_6(n: Note)
    requires
        note_parts(n).2 == 6,
    ensures
        note_name(n) =~= spelled(note_parts(n)),
{
    match n {
        Note::C6 => {
            reveal_strlit("C6");
        },
        Note::Cs6 => {
            reveal_strlit("C#6");
        },
        Note::Db6 => {
            reveal_strlit("Db6");
        },
        Note::D6 => {
            reveal_strlit("D6");
        },
        Note::Ds6 => {
            reveal_strlit("D#6");
        },
        Note::Eb6 => {
            reveal_strlit("Eb6");
        },
        Note::E6 => {
            reveal_strlit("E6");
        },
        Note::F6 => {
            reveal_strlit("F6");
        },
        Note::Fs6 => {
            reveal_strlit("F#6");
        },
        Note::Gb6 => {
            reveal_strlit("Gb6");
        },
        Note::G6 => {
            reveal_strlit("G6");
        },
        Note::Gs6 => {
            reveal_strlit("G#6");
        },
        Note::Ab6 => {
            reveal_strlit("Ab6");
        },
        Note::A6 => {
            reveal_strlit("A6");
        },
        Note::As6 => {
            reveal_strlit("A#6");
        },
        Note::Bb6 => {
            reveal_strlit("Bb6");
        },
        Note::B6 => {
            reveal_strlit("B6");
        },
        _ => {},
    }
}

proof fn lemma_spelling_octave_7(n: Note)
    requires
        note_parts(n).2 == 7,
    ensures
        note_name(n) =~= spelled(note_parts(n)),
{
    match n {
        Note::C7 => {
            reveal_strlit("C7");
        },
        Note::Cs7 => {
            reveal_strlit("C#7");
        },
        Note::Db7 => {
            reveal_strlit("Db7");
        },
        Note::D7 => {
            reveal_strlit("D7");
        },
        Note::Ds7 => {
            reveal_strlit("D#7");
        },
        Note::Eb7 => {
            reveal_strlit("Eb7");
        },
        Note::E7 => {
            reveal_strlit("E7");
        },
        Note::F7 => {
            reveal_strlit("F7");
        },
        Note::Fs7 => {
            reveal_strlit("F#7");
        },
        Note::Gb7 => {
            reveal_strlit("Gb7");
        },
        Note::G7 => {
            reveal_strlit("G7");
        },
        Note::Gs7 => {
            reveal_strlit("G#7");
        },
        Note::Ab7 => {
            reveal_strlit("Ab7");
        },
        Note::A7 => {
            reveal_strlit("A7");
        },
        Note::As7 => {
            reveal_strlit("A#7");
        },
        Note::Bb7 => {
            reveal_strlit("Bb7");
        },
        Note::B7 => {
            reveal_strlit("B7");
        },
        _ => {},
    }
}

proof fn lemma_spelling_octave_8(n: Note)
    requires
        note_parts(n).2 == 8,
    ensures
        note_name(n) =~= spelled(note_parts(n)),
{
    match n {
        Note::C8 => {
            reveal_strlit("C8");
        },
        Note::Cs8 => {
            reveal_strlit("C#8");
        },
        Note::Db8 => {
            reveal_strlit("Db8");
        },
        Note::D8 => {
            reveal_strlit("D8");
        },
        Note::Ds8 => {
            reveal_strlit("D#8");
        },
        Note::Eb8 => {
            reveal_strlit("Eb8");
        },
        Note::E8 => {
            reveal_strlit("E8");
        },
        Note::F8 => {
            reveal_strlit("F8");
        },
        Note::Fs8 => {
            reveal_strlit("F#8");
        },
        Note::Gb8 => {
            reveal_strlit("Gb8");
        },
        Note::G8 => {
            reveal_strlit("G8");
        },
        Note::Gs8 => {
            reveal_strlit("G#8");
        },
        Note::Ab8 => {
            reveal_strlit("Ab8");
        },
        Note::A8 => {
            reveal_strlit("A8");
        },
        Note::As8 => {
            reveal_strlit("A#8");
        },
        Note::Bb8 => {
            reveal_strlit("Bb8");
        },
        Note::B8 => {
            reveal_strlit("B8");
        },
        _ => {},
    }
}

/// A note's name is its letter, then "#" for a sharp or "b" for a flat,
/// then its octave: the variant's name with the sharp written "#".
pub proof fn law_note_name_spelling(n: Note)
    ensures
        note_name(n) == spelled(note_parts(n)),
{
    lemma_parts_determine_note(n);
    let o = note_parts(n).2;
    if o == 0 {
        lemma_spelling_octave_0(n);
    } else if o == 1 {
        lemma_spelling_octave_1(n);
    } else if o == 2 {
        lemma_spelling_octave_2(n);
    } else if o == 3 {
        lemma_spelling_octave_3(n);
    } else if o == 4 {
        lemma_spelling_octave_4(n);
    } else if o == 5 {
        lemma_spelling_octave_5(n);
    } else if o == 6 {
        lemma_spelling_octave_6(n);
    } else if o == 7 {
        lemma_spelling_octave_7(n);
    } else {
        lemma_spelling_octave_8(n);
    }
}

/// Distinct notes have distinct names; a sharp and the flat that sounds
/// alike (C#4 and Db4) are written differently.
pub proof fn law_note_names_distinct(n1: Note, n2: Note)
    requires
        n1 != n2,
    ensures
        note_name(n1) != note_name(n2),
{
    law_note_name_spelling(n1);
    law_note_name_spelling(n2);
    lemma_parts_determine_note(n1);
    lemma_parts_determine_note(n2);
    let p1 = note_parts(n1);
    let p2 = note_parts(n2);
    if note_name(n1) == note_name(n2) {
        let s = note_name(n1);
        assert(s[0] == p1.0 && s[0] == p2.0);
        assert(spelled(p1).len() == accidental_text(p1.1).len() + 2);
        assert(spelled(p2).len() == accidental_text(p2.1).len() + 2);
        assert(accidental_text(p1.1).len() == accidental_text(p2.1).len());
        if accidental_text(p1.1).len() == 1 {
            assert(s[1] == accidental_text(p1.1)[0]);
            assert(s[1] == accidental_text(p2.1)[0]);
        }
        assert(p1.1 == p2.1);
        assert(s[s.len() - 1] == octave_digit(p1.2));
        assert(s[s.len() - 1] == octave_digit(p2.2));
        assert(p1.2 == p2.2);
        assert(false);
    }
}

} // verus!
