use vstd::prelude::*;

pub use crate::types::Connection;

verus! {

/// The module kinds the patch-bay of the first hardware revision knows.
#[derive(Clone, Copy, Debug, PartialEq, Eq, Structural, Hash)]
pub enum ModuleType {
    Vco,
    Output,
    Lfo,
    Echo,
    EnvFilter,
    Chorus,
    Delay,
}

/// How many inputs and outputs a module of some kind has.
#[derive(Clone, Copy, Debug)]
pub struct ModuleInfo {
    pub n_ins: u8,
    pub n_outs: u8,
    pub mod_type: ModuleType,
}

} // verus!
