//! Core of an 8-bit instruction-set emulator modeled on the 6502
//! architecture: a 64 KiB byte-addressable memory, a per-opcode metadata
//! table, an addressing-mode resolver, and a fetch/decode/execute loop over
//! the accumulator, the X index register and the Zero/Negative status flags.

pub mod cpu;
pub mod errors;
pub mod flags;
pub mod instructions;
pub mod interp;
