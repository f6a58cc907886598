//! Synthesis of read/write accessor methods for the fields of a data
//! structure definition, driven by structured annotations at the structure
//! level and at each field.
//!
//! The pipeline: the flag grammar parser turns each annotation flag into a
//! partially-specified settings record; the precedence resolver merges the
//! four configuration layers into one fully-resolved specification per field
//! and operation kind; the field registry accumulates the resolved specs per
//! field; the method synthesizer turns each spec into a method definition; and
//! the emitter assembles the stripped structure definition and the methods
//! into one output unit.

pub mod errors;
pub mod expand;
pub mod laws;
pub mod parser;
pub mod registry;
pub mod semantics;
pub mod settings;
pub mod structure;
pub mod synth;
