//! Typed, bit-precise views over RISC-V hardware registers.
//!
//! The crate covers the two register families of a RISC-V platform:
//! control-and-status registers, whose raw word is decoded through
//! validated bit fields, and memory-mapped registers, which are reached
//! by address and laid out one per hart behind a common base.

pub mod access;
pub mod csr;
pub mod field;
pub mod hart;
pub mod mmio;
pub mod mswi;
pub mod stopi;
