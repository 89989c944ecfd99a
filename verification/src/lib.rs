//! Cycle-accurate execution core of the 6502-family CPU used in the NES
//! (the 2A03 variant: no decimal mode).
//!
//! The crate models the register file, the status flags, the 256-entry
//! opcode table, the thirteen addressing modes and the instruction
//! semantics, together with the extra-cycle accounting (page crossings,
//! taken branches) that real software timing depends on.
//!
//! Every executable function is specified against a mathematical model of
//! the machine state (`cpu::CpuState`) and verified with Verus.

pub mod addr;
pub mod bits;
pub mod cpu;
pub mod inst;
