//! Patch-bay, voice allocation, envelope stages, sample-buffer positions,
//! controls-board multiplexing, control-message and graph logic of the
//! synth-8080 modular synthesizer.

pub mod common;
pub mod controller;
pub mod error;
pub mod router;
pub mod types;
pub mod synth;
pub mod notes;
pub mod midi_osc;
pub mod envelope;
pub mod buffers;
pub mod controls;
pub mod communications;
pub mod graphs;
pub mod dot;
