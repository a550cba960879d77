use vstd::prelude::*;

verus! {

/// Why a request to the synthesizer was refused.
#[derive(Clone, Copy, Debug, PartialEq, Eq, Structural)]
pub enum SynthError {
    /// the requested connection is not possible
    NotConnectable,
    /// the requested connection is already made
    AlreadyConnected,
    /// the requested connection is not made, so it cannot be undone
    NotConnected,
    /// the note is already being played
    AlreadyPlaying,
    /// the note is not being played
    NotPlaying,
    /// every oscillator is busy with a note
    NoFreeOscillator,
    /// a control message ended before its type was terminated
    MalformedMessage,
    /// a control message has a type that is not known
    UnknownMessage,
}

} // verus!
