//! A verified interpreter core for a small 32-bit register machine with a
//! segmented, dynamically allocated address space.
//!
//! The crate provides the machine state ([`um::UniversalMachine`]), the
//! instruction-word decoder ([`parser`]), the fourteen opcode handlers
//! ([`instructions`]), and a single-cycle execution function
//! ([`parser::parse`]) that reports console I/O and termination to its caller
//! as explicit effects instead of performing them itself.

pub mod instructions;
pub mod laws;
pub mod loader;
pub mod parser;
pub mod um;
