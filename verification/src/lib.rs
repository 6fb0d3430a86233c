//! A small virtual machine that runs a linear program of named instructions
//! against a store of byte buffers addressed by string identifiers.
//!
//! Every executable function in this crate carries a contract over a
//! mathematical model of the machine: a buffer store is a map from
//! identifiers to byte sequences, a numeric buffer is the big-endian
//! encoding of a 64-bit unsigned integer, and a run is the repeated
//! application of a single-step function.

pub mod bytes;
pub mod codec;
pub mod decimal;
pub mod error;
pub mod hexlit;
pub mod instruction;
pub mod laws;
pub mod loader;
pub mod math;
pub mod ops;
pub mod signal;
pub mod store;
pub mod text;
pub mod vm;
