use vstd::prelude::*;

use crate::error::SynthError;
use crate::notes::Note;

verus! {

/// What each voice of a polyphonic oscillator is playing.
pub type Slots = Seq<Option<Note>>;

/// The first voice of `s` that holds `v`, or `-1` when none does.
pub open spec fn first_slot_with(s: Slots, v: Option<Note>) -> int
    decreases s.len(),
{
    if s.len() == 0 {
        -1
    } else {
        let p = first_slot_with(s.drop_last(), v);
        if p >= 0 {
            p
        } else if s.last() == v {
            s.len() - 1
        } else {
            -1
        }
    }
}

/// No note is played by two voices at once.
pub open spec fn notes_distinct(s: Slots) -> bool {
    forall|i: int, j: int|
        0 <= i < s.len() && 0 <= j < s.len() && i != j && (#[trigger] s[i]) is Some ==> s[i]
            != #[trigger] s[j]
}

/// The voices after a request to play `note`: it goes to the first idle
/// voice, unless it is already being played or every voice is busy.
pub open spec fn play_spec(s: Slots, note: Note) -> Slots {
    if s.contains(Some(note)) || !s.contains(None) {
        s
    } else {
        s.update(first_slot_with(s, None), Some(note))
    }
}

/// The voices after a request to stop `note`: the voice playing it goes idle.
pub open spec fn stop_spec(s: Slots, note: Note) -> Slots {
    if s.contains(Some(note)) {
        s.update(first_slot_with(s, Some(note)), None)
    } else {
        s
    }
}

/// `size` idle voices.
pub open spec fn idle_voices(size: nat) -> Slots {
    Seq::new(size, |i: int| None)
}

/// The number of voices of `s` that play a note.
pub open spec fn busy_count(s: Slots) -> nat
    decreases s.len(),
{
    if s.len() == 0 {
        0
    } else {
        busy_count(s.drop_last()) + if s.last() is Some {
            1nat
        } else {
            0nat
        }
    }
}

proof fn lemma_first_slot_with(s: Slots, v: Option<Note>)
    ensures
        ({
            let p = first_slot_with(s, v);
            ||| p == -1 && !s.contains(v)
            ||| 0 <= p < s.len() && s[p] == v && forall|j: int| 0 <= j < p ==> s[j] != v
        }),
    decreases s.len(),
{
    if s.len() > 0 {
        let prev = s.drop_last();
        lemma_first_slot_with(prev, v);
        let p = first_slot_with(prev, v);
        if p >= 0 {
            assert(s[p] == prev[p]);
            assert forall|j: int| 0 <= j < p implies s[j] != v by {
                assert(s[j] == prev[j]);
            }
        } else if s.last() == v {
            assert forall|j: int| 0 <= j < s.len() - 1 implies s[j] != v by {
                assert(s[j] == prev[j]);
                assert(!prev.contains(v));
                if s[j] == v {
                    assert(prev.contains(prev[j]));
                }
            }
        } else {
            if s.contains(v) {
                let k = choose|k: int| 0 <= k < s.len() && s[k] == v;
                assert(k != s.len() - 1);
                assert(prev[k] == v);
            }
        }
    }
}

proof fn lemma_busy_count_bounded(s: Slots)
    ensures
        busy_count(s) <= s.len(),
    decreases s.len(),
{
    if s.len() > 0 {
        lemma_busy_count_bounded(s.drop_last());
    }
}

/// The voice bookkeeping of a polyphonic MIDI oscillator: which note, if
/// any, each of its voices plays.
pub struct MidiOsc {
    /// how many voices there are
    size: usize,
    /// the note each voice plays
    notes: Vec<Option<Note>>,
    /// whether the voices produce overtones
    overtones: bool,
}

impl View for MidiOsc {
    type V = Slots;

    closed spec fn view(&self) -> Slots {
        self.notes@
    }
}

impl MidiOsc {
    #[verifier::type_invariant]
    closed spec fn well_formed(self) -> bool {
        &&& self.notes@.len() == self.size
        &&& notes_distinct(self.notes@)
    }

    /// Whether the voices produce overtones.
    pub closed spec fn overtones_on(self) -> bool {
        self.overtones
    }

    /// `n` idle voices.
    fn idle(n: usize) -> (v: Vec<Option<Note>>)
        ensures
            v@ == idle_voices(n as nat),
    {
        let mut v: Vec<Option<Note>> = Vec::new();
        let mut i: usize = 0;
        while i < n
            invariant
                i <= n,
                v@ == idle_voices(i as nat),
            decreases n - i,
        {
            v.push(None);
            i = i + 1;
            assert(v@ =~= idle_voices(i as nat));
        }
        v
    }

    /// The voices with voice `i` set to `v`.
    fn with_slot(&self, i: usize, v: Option<Note>) -> (r: Vec<Option<Note>>)
        requires
            i < self@.len(),
        ensures
            r@ == self@.update(i as int, v),
    {
        let mut r: Vec<Option<Note>> = Vec::new();
        let mut j: usize = 0;
        while j < self.notes.len()
            invariant
                j <= self.notes@.len(),
                i < self.notes@.len(),
                r@ =~= self.notes@.update(i as int, v).take(j as int),
            decreases self.notes.len() - j,
        {
            if j == i {
                r.push(v);
            } else {
                r.push(self.notes[j]);
            }
            j = j + 1;
        }
        r
    }

    /// A copy of the voices.
    fn copy_slots(&self) -> (r: Vec<Option<Note>>)
        ensures
            r@ == self@,
    {
        let mut r: Vec<Option<Note>> = Vec::new();
        let mut j: usize = 0;
        while j < self.notes.len()
            invariant
                j <= self.notes@.len(),
                r@ =~= self.notes@.take(j as int),
            decreases self.notes.len() - j,
        {
            r.push(self.notes[j]);
            j = j + 1;
        }
        r
    }

    /// An oscillator with `size` idle voices and overtones off.
    pub fn new(size: usize) -> (m: MidiOsc)
        ensures
            m@ == idle_voices(size as nat),
            !m.overtones_on(),
    {
        let notes = Self::idle(size);
        MidiOsc { size, notes, overtones: false }
    }

    /// Replaces the voices with `n` idle ones.
    pub fn set_polyphony(&mut self, n: usize)
        ensures
            final(self)@ == idle_voices(n as nat),
            final(self).overtones_on() == old(self).overtones_on(),
    {
        let notes = Self::idle(n);
        *self = MidiOsc { size: n, notes, overtones: self.overtones };
    }

    /// Switches overtones on or off.
    pub fn set_overtones(&mut self, on: bool)
        ensures
            final(self)@ == old(self)@,
            final(self).overtones_on() == on,
    {
        proof {
            use_type_invariant(&*self);
        }
        let notes = self.copy_slots();
        *self = MidiOsc { size: self.size, notes, overtones: on };
    }

    /// Whether the voices produce overtones.
    pub fn overtones(&self) -> (r: bool)
        ensures
            r == self.overtones_on(),
    {
        self.overtones
    }

    /// How many voices there are.
    pub fn size(&self) -> (n: usize)
        ensures
            n == self@.len(),
    {
        proof {
            use_type_invariant(self);
        }
        self.size
    }

    /// Finds the first voice that holds `v`.
    fn find(&self, v: Option<Note>) -> (r: Option<usize>)
        ensures
            match r {
                Some(i) => {
                    &&& i == first_slot_with(self@, v)
                    &&& i < self@.len()
                    &&& self@[i as int] == v
                    &&& self@.contains(v)
                },
                None => !self@.contains(v) && first_slot_with(self@, v) == -1,
            },
    {
        proof {
            use_type_invariant(self);
            lemma_first_slot_with(self@, v);
        }
        let mut i: usize = 0;
        while i < self.size
            invariant
                i <= self.notes@.len(),
                self.size == self.notes@.len(),
                forall|j: int| 0 <= j < i ==> self.notes@[j] != v,
                ({
                    let p = first_slot_with(self.notes@, v);
                    ||| p == -1 && !self.notes@.contains(v)
                    ||| 0 <= p < self.notes@.len() && self.notes@[p] == v && forall|j: int|
                        0 <= j < p ==> self.notes@[j] != v
                }),
            decreases self.size - i,
        {
            let same = match (self.notes[i], v) {
                (Some(a), Some(b)) => a == b,
                (None, None) => true,
                _ => false,
            };
            if same {
                assert(self.notes@[i as int] == v);
                assert(self.notes@.contains(v));
                return Some(i);
            }
            i = i + 1;
        }
        None
    }

    /// Whether some voice plays `note`.
    pub fn is_playing(&self, note: Note) -> (r: bool)
        ensures
            r == self@.contains(Some(note)),
    {
        self.find(Some(note)).is_some()
    }

    /// How many voices play a note.
    pub fn playing_count(&self) -> (n: usize)
        ensures
            n == busy_count(self@),
    {
        proof {
            use_type_invariant(self);
        }
        let mut n: usize = 0;
        let mut i: usize = 0;
        while i < self.size
            invariant
                i <= self.notes@.len(),
                self.size == self.notes@.len(),
                n == busy_count(self.notes@.take(i as int)),
            decreases self.size - i,
        {
            assert(self.notes@.take(i + 1).drop_last() =~= self.notes@.take(i as int));
            proof {
                lemma_busy_count_bounded(self.notes@.take(i as int));
            }
            if self.notes[i].is_some() {
                n = n + 1;
            }
            i = i + 1;
        }
        assert(self.notes@.take(self.size as int) =~= self.notes@);
        n
    }

    /// Starts `note` on the first idle voice and returns that voice. Refused
    /// when the note is already being played or no voice is idle.
    pub fn play_note(&mut self, note: Note) -> (r: Result<usize, SynthError>)
        ensures
            final(self)@ == play_spec(old(self)@, note),
            final(self).overtones_on() == old(self).overtones_on(),
            old(self)@.contains(Some(note)) ==> r == Err::<usize, SynthError>(
                SynthError::AlreadyPlaying,
            ),
            !old(self)@.contains(Some(note)) && !old(self)@.contains(None) ==> r == Err::<
                usize,
                SynthError,
            >(SynthError::NoFreeOscillator),
            !old(self)@.contains(Some(note)) && old(self)@.contains(None) ==> r == Ok::<
                usize,
                SynthError,
            >(first_slot_with(old(self)@, None) as usize),
    {
        proof {
            use_type_invariant(&*self);
        }
        if self.find(Some(note)).is_some() {
            return Err(SynthError::AlreadyPlaying);
        }
        match self.find(None) {
            Some(i) => {
                proof {
                    let s = self.notes@.update(i as int, Some(note));
                    assert forall|a: int, b: int|
                        0 <= a < s.len() && 0 <= b < s.len() && a != b && (#[trigger] s[a]) is Some
                        implies s[a] != #[trigger] s[b] by {
                        if a == i {
                            if s[b] == Some(note) {
                                assert(self.notes@.contains(self.notes@[b]));
                            }
                        } else if b != i {
                            assert(s[a] == self.notes@[a]);
                        }
                    }
                }
                let notes = self.with_slot(i, Some(note));
                *self = MidiOsc { size: self.size, notes, overtones: self.overtones };
                Ok(i)
            },
            None => Err(SynthError::NoFreeOscillator),
        }
    }

    /// Stops `note` and returns the voice that played it. Refused when the
    /// note is not being played.
    pub fn stop_note(&mut self, note: Note) -> (r: Result<usize, SynthError>)
        ensures
            final(self)@ == stop_spec(old(self)@, note),
            final(self).overtones_on() == old(self).overtones_on(),
            old(self)@.contains(Some(note)) ==> r == Ok::<usize, SynthError>(
                first_slot_with(old(self)@, Some(note)) as usize,
            ),
            !old(self)@.contains(Some(note)) ==> r == Err::<usize, SynthError>(
                SynthError::NotPlaying,
            ),
    {
        proof {
            use_type_invariant(&*self);
        }
        match self.find(Some(note)) {
            Some(i) => {
                proof {
                    let s = self.notes@.update(i as int, None);
                    assert forall|a: int, b: int|
                        0 <= a < s.len() && 0 <= b < s.len() && a != b && (#[trigger] s[a]) is Some
                        implies s[a] != #[trigger] s[b] by {
                        if b != i {
                            assert(s[a] == self.notes@[a]);
                            assert(s[b] == self.notes@[b]);
                        }
                    }
                }
                let notes = self.with_slot(i, None);
                *self = MidiOsc { size: self.size, notes, overtones: self.overtones };
                Ok(i)
            },
            None => Err(SynthError::NotPlaying),
        }
    }
}

impl Default for MidiOsc {
    /// Ten idle voices, overtones off.
    fn default() -> (m: MidiOsc)
        ensures
            m@ == idle_voices(10),
            !m.overtones_on(),
    {
        MidiOsc::new(10)
    }
}

/// The number of inputs of an envelope filter.
pub const ENVELOPE_INPUTS: u8 = 8;

/// The number of inputs of a VCO.
pub const VCO_INPUTS: u8 = 3;

/// Where a sample sent to an input of a MIDI oscillator goes.
#[derive(Clone, Copy, Debug, PartialEq, Eq, Structural)]
pub enum McoInput {
    /// to this input of every voice's envelope filter
    Envelope(u8),
    /// to this input of every voice's VCO
    Oscillator(u8),
    /// nowhere: the input does not exist
    Invalid,
}

/// Where input `input_n` of a MIDI oscillator leads: its first inputs are
/// those of the envelope filters, the next ones those of the VCOs.
pub fn input_target(input_n: u8) -> (r: McoInput)
    ensures
        input_n < ENVELOPE_INPUTS ==> r == McoInput::Envelope(input_n),
        ENVELOPE_INPUTS <= input_n < ENVELOPE_INPUTS + VCO_INPUTS ==> r == McoInput::Oscillator(
            (input_n - ENVELOPE_INPUTS) as u8,
        ),
        input_n >= ENVELOPE_INPUTS + VCO_INPUTS ==> r == McoInput::Invalid,
{
    if input_n < ENVELOPE_INPUTS {
        McoInput::Envelope(input_n)
    } else {
        let input = input_n - ENVELOPE_INPUTS;
        if input >= VCO_INPUTS {
            McoInput::Invalid
        } else {
            McoInput::Oscillator(input)
        }
    }
}

/// Playing a note that is not being played, while some voice is idle, and
/// then stopping it, gives back the voices as they were.
pub proof fn law_play_then_stop_restores(s: Slots, note: Note)
    requires
        !s.contains(Some(note)),
        s.contains(None),
    ensures
        stop_spec(play_spec(s, note), note) == s,
{
    lemma_first_slot_with(s, None);
    let i = first_slot_with(s, None);
    let t = s.update(i, Some(note));
    assert(t[i] == Some(note));
    assert(t.contains(Some(note)));
    lemma_first_slot_with(t, Some(note));
    let p = first_slot_with(t, Some(note));
    if p != i {
        assert(t[p] == s[p]);
        assert(s.contains(s[p]));
    }
    assert(t.update(i, None) =~= s);
}

/// No note is ever played by two voices: every request to play or stop a
/// note keeps the voices free of repeats.
pub proof fn law_voices_stay_distinct(s: Slots, note: Note)
    requires
        notes_distinct(s),
    ensures
        notes_distinct(play_spec(s, note)),
        notes_distinct(stop_spec(s, note)),
{
    lemma_first_slot_with(s, None);
    lemma_first_slot_with(s, Some(note));
    if !s.contains(Some(note)) && s.contains(None) {
        let i = first_slot_with(s, None);
        let t = s.update(i, Some(note));
        assert forall|a: int, b: int|
            0 <= a < t.len() && 0 <= b < t.len() && a != b && (#[trigger] t[a]) is Some implies t[a]
            != #[trigger] t[b] by {
            if a == i {
                if t[b] == Some(note) {
                    assert(s.contains(s[b]));
                }
            } else if b != i {
                assert(t[a] == s[a]);
            }
        }
    }
    if s.contains(Some(note)) {
        let i = first_slot_with(s, Some(note));
        let t = s.update(i, None);
        assert forall|a: int, b: int|
            0 <= a < t.len() && 0 <= b < t.len() && a != b && (#[trigger] t[a]) is Some implies t[a]
            != #[trigger] t[b] by {
            if b != i {
                assert(t[a] == s[a]);
                assert(t[b] == s[b]);
            }
        }
    }
}

} // verus!
