use vstd::prelude::*;

verus! {

/// Samples per second of the audio stream.
pub const SAMPLE_RATE: u32 = 44_100;

/// The four wave forms an oscillator can produce.
#[derive(Clone, Copy, Debug, PartialEq, Eq, Structural, Hash)]
pub enum OscType {
    Sine,
    Square,
    Triangle,
    SawTooth,
}

/// A connection from an output of one module to an input of another module.
/// Module `0` is the audio output; module `k > 0` is the `k`-th built module.
#[derive(Clone, Copy, PartialEq, Eq, Structural, Debug)]
pub struct Connection {
    pub src_module: u8,
    pub src_output: u8,
    pub dest_module: u8,
    pub dest_input: u8,
}

/// The kinds of modules the synthesizer can be built from.
#[derive(Clone, Copy, Debug, PartialEq, Eq, Structural, Hash)]
pub enum ModuleType {
    Vco,
    Output,
    Lfo,
    Echo,
    EnvFilter,
    Chorus,
    Delay,
    OverDrive,
    Reverb,
    /// MIDI controlled oscillator.
    MCO,
}

/// The envelope shapes an envelope filter can use.
#[derive(Debug, Clone, Copy, Hash, PartialEq, Eq, Structural)]
pub enum FilterType {
    ADSR,
}

/// The display name of a module type, as shown to the user.
pub open spec fn module_type_display(t: ModuleType) -> Seq<char> {
    match t {
        ModuleType::Vco => "VCO"@,
        ModuleType::Output => "Output"@,
        ModuleType::Lfo => "LFO"@,
        ModuleType::Echo => "Echo"@,
        ModuleType::EnvFilter => "Filter"@,
        ModuleType::Chorus => "Chorus"@,
        ModuleType::Delay => "Delay"@,
        ModuleType::OverDrive => "OD"@,
        ModuleType::Reverb => "Reverb"@,
        ModuleType::MCO => "MCO"@,
    }
}

/// The identifier of a module type, as the variant is spelled.
pub open spec fn module_type_ident(t: ModuleType) -> Seq<char> {
    match t {
        ModuleType::Vco => "Vco"@,
        ModuleType::Output => "Output"@,
        ModuleType::Lfo => "Lfo"@,
        ModuleType::Echo => "Echo"@,
        ModuleType::EnvFilter => "EnvFilter"@,
        ModuleType::Chorus => "Chorus"@,
        ModuleType::Delay => "Delay"@,
        ModuleType::OverDrive => "OverDrive"@,
        ModuleType::Reverb => "Reverb"@,
        ModuleType::MCO => "MCO"@,
    }
}

impl ModuleType {
    /// The display name of this module type ("VCO", "Filter", "OD", ...).
    pub fn name(&self) -> (s: String)
        ensures
            s@ == module_type_display(*self),
    {
        match self {
            ModuleType::Vco => String::from_str("VCO"),
            ModuleType::Output => String::from_str("Output"),
            ModuleType::Lfo => String::from_str("LFO"),
            ModuleType::Echo => String::from_str("Echo"),
            ModuleType::EnvFilter => String::from_str("Filter"),
            ModuleType::Chorus => String::from_str("Chorus"),
            ModuleType::Delay => String::from_str("Delay"),
            ModuleType::OverDrive => String::from_str("OD"),
            ModuleType::Reverb => String::from_str("Reverb"),
            ModuleType::MCO => String::from_str("MCO"),
        }
    }

    /// The identifier of this module type, spelled as the variant ("Vco", "EnvFilter", ...).
    pub fn ident(&self) -> (s: String)
        ensures
            s@ == module_type_ident(*self),
    {
        match self {
            ModuleType::Vco => String::from_str("Vco"),
            ModuleType::Output => String::from_str("Output"),
            ModuleType::Lfo => String::from_str("Lfo"),
            ModuleType::Echo => String::from_str("Echo"),
            ModuleType::EnvFilter => String::from_str("EnvFilter"),
            ModuleType::Chorus => String::from_str("Chorus"),
            ModuleType::Delay => String::from_str("Delay"),
            ModuleType::OverDrive => String::from_str("OverDrive"),
            ModuleType::Reverb => String::from_str("Reverb"),
            ModuleType::MCO => String::from_str("MCO"),
        }
    }
}

/// Who is on the other end of a control link.
#[derive(Clone, Copy, Debug, PartialEq, Eq, Structural)]
pub enum SynthId {
    /// the synth
    Synth,
    /// the display (displays connections on a monitor)
    DisplayClient,
    /// audio input board
    AudioInBoard,
    /// board in charge of knobs and switches
    ControlsBoard,
}

/// Messages emitted by the synth.
#[derive(Clone, Debug, PartialEq)]
pub enum SynthRes {
    /// the full list of connections, answering a request for the synth's state
    SynthState(Vec<Connection>),
    /// a request that the entity connected to the synth identify itself
    Identify,
}

} // verus!
