//! Errors surfaced by the CPU core. All failures are programmer-visible and
//! reported synchronously at the call that triggered them.

use vstd::prelude::*;

verus! {

/// A failure of the CPU core, carrying enough context to tell the cases
/// apart from a test or a caller.
#[derive(Clone, Copy, Debug, PartialEq, Eq, Structural)]
pub enum EmuError {
    /// The fetched opcode has no execution handler. Carries the opcode value
    /// and the program counter the opcode byte was fetched from.
    UnimplementedOpcode { opcode: u8, program_counter: u16 },
    /// The program image does not fit between the load address 0x8000 and
    /// the top of the 64 KiB address space. Carries the image length.
    OutOfBoundsLoad { len: usize },
}

} // verus!
