//! Instruction-execution core of a 64-bit MIPS-family (VR4300) CPU emulator.
//!
//! The crate models the architectural state a running program can observe:
//! the general-purpose register file with its hard-wired zero register, the
//! privileged CP0 control registers with their bit-field layouts, kseg1
//! virtual-to-physical address translation, and a fetch-decode-execute engine
//! for the currently supported opcodes. Every state transition is specified
//! and verified; invalid encodings and unmapped addresses surface as typed
//! errors carrying the offending raw value.

pub mod cp0;
pub mod cpu;
pub mod errors;
pub mod interconnect;
pub mod reg_config;
pub mod reg_status;
