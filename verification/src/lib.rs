//! An in-memory model of a low-level compiler intermediate representation,
//! together with a deterministic renderer that turns each entity of the model
//! (types, values, constants, instructions, basic blocks, functions, modules)
//! into its canonical textual syntax.
//!
//! The model is plain immutable data; rendering is a pure function of the
//! value, stated for every entity by a `spec` function that its `ir` method
//! is proved to match exactly.

pub mod blocks;
pub mod functions;
pub mod inst;
pub mod module;
pub mod numeral;
pub mod values;
