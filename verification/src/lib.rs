//! Instruction-execution core of a byte-accurate NMOS 6502 emulator.
//!
//! The crate models the processor at the granularity of individual
//! memory-mapped bytes and status-register bits: a flat 64 KiB memory,
//! the packed flag register, the one-page hardware stack, the canonical
//! opcode table, and the fetch-decode-execute loop, including the
//! chip's documented quirks such as the indirect-`JMP` page-boundary bug.
//!
//! Every instruction's effect is stated against a mathematical machine
//! state ([`semantics::CpuState`]) and a one-instruction transition
//! function ([`semantics::spec_step`]); the executable engine is proved
//! to follow that transition exactly.

pub mod cpu;
pub mod op_codes;
pub mod processor;
pub mod semantics;
pub mod stack;
