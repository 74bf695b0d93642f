//! Processing core of an 8-bit handheld console: an address space, a register
//! file, an opcode table and the fetch-decode-execute engine that drives them.
//!
//! Every executable function carries a contract stated over the mathematical
//! model in [`cpu::model`]; the engine never panics, and every failure is
//! reported as an [`error::EmuError`] that leaves the machine untouched.

pub mod error;
pub mod text;
pub mod memory;
pub mod cpu;
