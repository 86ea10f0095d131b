//! Decoder for the ARM instruction set of the ARM7TDMI.
//!
//! [`arm_cpu::instruction::Decoded::decode_arm`] maps a 32-bit machine word to
//! its execution condition and operation. Every executable function carries a
//! contract that Verus proves against the function's body.

pub mod arm_cpu;
pub mod util;
