//! The instruction table: a fixed 256-entry mapping from an opcode byte to
//! its metadata — mnemonic, encoded length in bytes, base cycle cost and
//! addressing mode. The table is pure data, built once and read-only
//! thereafter; opcodes with no association keep a sentinel entry that marks
//! them malformed or unimplemented. [`table_entry`] is the table's single
//! source of truth, and `instruction_table`'s contract pins every entry to
//! it.

use vstd::prelude::*;

use crate::cpu::AddressingMode;

verus! {

/// One immutable table entry: mnemonic, byte length (opcode included),
/// base cycle count and addressing mode. Cycle counts of the indexed and
/// post-indexed modes record the base cost only; the extra cycle of a page
/// crossing is metadata, not enforced timing.
#[derive(Clone, Copy)]
pub struct Instruction {
    pub mnemonic: &'static str,
    pub bytes: u8,
    pub cycles: u8,
    pub mode: AddressingMode,
}

impl Instruction {
    fn new(mnemonic: &'static str, bytes: u8, cycles: u8, mode: AddressingMode) -> (instruction:
        Instruction)
        ensures
            instruction == (Instruction { mnemonic, bytes, cycles, mode }),
    {
        Instruction { mnemonic, bytes, cycles, mode }
    }
}

/// The metadata assigned to an opcode: mnemonic (as a character sequence),
/// byte length, base cycle cost and addressing mode. Opcodes with no
/// association hold the sentinel: mnemonic "XXX", length 0, cost 0,
/// Implied mode.
pub open spec fn table_entry(opcode: u8) -> (Seq<char>, u8, u8, AddressingMode) {
    match opcode {
        0xa9 => ("LDA"@, 2u8, 2u8, AddressingMode::Immediate),
        0xa5 => ("LDA"@, 2u8, 3u8, AddressingMode::ZeroPage),
        0xb5 => ("LDA"@, 2u8, 4u8, AddressingMode::ZeroPage_X),
        0xad => ("LDA"@, 3u8, 4u8, AddressingMode::Absolute),
        0xbd => ("LDA"@, 3u8, 4u8, AddressingMode::Absolute_X),
        0xb9 => ("LDA"@, 3u8, 4u8, AddressingMode::Absolute_Y),
        0xa1 => ("LDA"@, 2u8, 6u8, AddressingMode::Indirect_X),
        0xb1 => ("LDA"@, 2u8, 5u8, AddressingMode::Indirect_Y),
        0xa2 => ("LDX"@, 2u8, 2u8, AddressingMode::Immediate),
        0xa6 => ("LDX"@, 2u8, 3u8, AddressingMode::ZeroPage),
        0xb6 => ("LDX"@, 2u8, 4u8, AddressingMode::ZeroPage_Y),
        0xae => ("LDX"@, 3u8, 4u8, AddressingMode::Absolute),
        0xbe => ("LDX"@, 3u8, 4u8, AddressingMode::Absolute_Y),
        0xa0 => ("LDY"@, 2u8, 2u8, AddressingMode::Immediate),
        0xa4 => ("LDY"@, 2u8, 3u8, AddressingMode::ZeroPage),
        0xb4 => ("LDY"@, 2u8, 4u8, AddressingMode::ZeroPage_X),
        0xac => ("LDY"@, 3u8, 4u8, AddressingMode::Absolute),
        0xbc => ("LDY"@, 3u8, 4u8, AddressingMode::Absolute_X),
        0x85 => ("STA"@, 2u8, 3u8, AddressingMode::ZeroPage),
        0x95 => ("STA"@, 2u8, 4u8, AddressingMode::ZeroPage_X),
        0x8d => ("STA"@, 3u8, 4u8, AddressingMode::Absolute),
        0x9d => ("STA"@, 3u8, 5u8, AddressingMode::Absolute_X),
        0x99 => ("STA"@, 3u8, 5u8, AddressingMode::Absolute_Y),
        0x81 => ("STA"@, 2u8, 6u8, AddressingMode::Indirect_X),
        0x91 => ("STA"@, 2u8, 6u8, AddressingMode::Indirect_Y),
        0x86 => ("STX"@, 2u8, 3u8, AddressingMode::ZeroPage),
        0x96 => ("STX"@, 2u8, 4u8, AddressingMode::ZeroPage_Y),
        0x8e => ("STX"@, 3u8, 4u8, AddressingMode::Absolute),
        0x84 => ("STY"@, 2u8, 3u8, AddressingMode::ZeroPage),
        0x94 => ("STY"@, 2u8, 4u8, AddressingMode::ZeroPage_X),
        0x8c => ("STY"@, 3u8, 4u8, AddressingMode::Absolute),
        0xaa => ("TAX"@, 1u8, 2u8, AddressingMode::Implied),
        0xa8 => ("TAY"@, 1u8, 2u8, AddressingMode::Implied),
        0x8a => ("TXA"@, 1u8, 2u8, AddressingMode::Implied),
        0x98 => ("TYA"@, 1u8, 2u8, AddressingMode::Implied),
        0xba => ("TSX"@, 1u8, 2u8, AddressingMode::Implied),
        0x9a => ("TXS"@, 1u8, 2u8, AddressingMode::Implied),
        0x48 => ("PHA"@, 1u8, 3u8, AddressingMode::Implied),
        0x08 => ("PHP"@, 1u8, 3u8, AddressingMode::Implied),
        0x68 => ("PLA"@, 1u8, 4u8, AddressingMode::Implied),
        0x28 => ("PLP"@, 1u8, 4u8, AddressingMode::Implied),
        0x29 => ("AND"@, 2u8, 2u8, AddressingMode::Immediate),
        0x25 => ("AND"@, 2u8, 3u8, AddressingMode::ZeroPage),
        0x35 => ("AND"@, 2u8, 4u8, AddressingMode::ZeroPage_X),
        0x2d => ("AND"@, 3u8, 4u8, AddressingMode::Absolute),
        0x3d => ("AND"@, 3u8, 4u8, AddressingMode::Absolute_X),
        0x39 => ("AND"@, 3u8, 4u8, AddressingMode::Absolute_Y),
        0x21 => ("AND"@, 2u8, 6u8, AddressingMode::Indirect_X),
        0x31 => ("AND"@, 2u8, 5u8, AddressingMode::Indirect_Y),
        0x49 => ("EOR"@, 2u8, 2u8, AddressingMode::Immediate),
        0x45 => ("EOR"@, 2u8, 3u8, AddressingMode::ZeroPage),
        0x55 => ("EOR"@, 2u8, 4u8, AddressingMode::ZeroPage_X),
        0x4d => ("EOR"@, 3u8, 4u8, AddressingMode::Absolute),
        0x5d => ("EOR"@, 3u8, 4u8, AddressingMode::Absolute_X),
        0x59 => ("EOR"@, 3u8, 4u8, AddressingMode::Absolute_Y),
        0x41 => ("EOR"@, 2u8, 6u8, AddressingMode::Indirect_X),
        0x51 => ("EOR"@, 2u8, 5u8, AddressingMode::Indirect_Y),
        _ => ("XXX"@, 0u8, 0u8, AddressingMode::Implied),
    }
}

/// Builds the 256-entry table, every entry exactly as [`table_entry`]
/// assigns it. Adding an opcode takes one new association here and an
/// execution handler; the fetch/decode loop itself needs no change.
#[verifier::rlimit(100)]
pub fn instruction_table() -> (table: Vec<Instruction>)
    ensures
        table@.len() == 256,
        forall|opcode: u8|
            {
                let entry = #[trigger] table@[opcode as int];
                entry.mnemonic@ == table_entry(opcode).0 && entry.bytes == table_entry(opcode).1
                    && entry.cycles == table_entry(opcode).2 && entry.mode == table_entry(
                    opcode,
                ).3
            },
{
    let mut table: Vec<Instruction> = Vec::new();
    while table.len() < 256
        invariant
            table@.len() <= 256,
            forall|i: int|
                0 <= i < table@.len() ==> (#[trigger] table@[i]) == (Instruction {
                    mnemonic: "XXX",
                    bytes: 0u8,
                    cycles: 0u8,
                    mode: AddressingMode::Implied,
                }),
        decreases 256 - table@.len(),
    {
        table.push(Instruction::new("XXX", 0, 0, AddressingMode::Implied));
    }

    table[0xa9] = Instruction::new("LDA", 2, 2, AddressingMode::Immediate);
    table[0xa5] = Instruction::new("LDA", 2, 3, AddressingMode::ZeroPage);
    table[0xb5] = Instruction::new("LDA", 2, 4, AddressingMode::ZeroPage_X);
    table[0xad] = Instruction::new("LDA", 3, 4, AddressingMode::Absolute);
    table[0xbd] = Instruction::new("LDA", 3, 4, AddressingMode::Absolute_X);
    table[0xb9] = Instruction::new("LDA", 3, 4, AddressingMode::Absolute_Y);
    table[0xa1] = Instruction::new("LDA", 2, 6, AddressingMode::Indirect_X);
    table[0xb1] = Instruction::new("LDA", 2, 5, AddressingMode::Indirect_Y);

    table[0xa2] = Instruction::new("LDX", 2, 2, AddressingMode::Immediate);
    table[0xa6] = Instruction::new("LDX", 2, 3, AddressingMode::ZeroPage);
    table[0xb6] = Instruction::new("LDX", 2, 4, AddressingMode::ZeroPage_Y);
    table[0xae] = Instruction::new("LDX", 3, 4, AddressingMode::Absolute);
    table[0xbe] = Instruction::new("LDX", 3, 4, AddressingMode::Absolute_Y);

    table[0xa0] = Instruction::new("LDY", 2, 2, AddressingMode::Immediate);
    table[0xa4] = Instruction::new("LDY", 2, 3, AddressingMode::ZeroPage);
    table[0xb4] = Instruction::new("LDY", 2, 4, AddressingMode::ZeroPage_X);
    table[0xac] = Instruction::new("LDY", 3, 4, AddressingMode::Absolute);
    table[0xbc] = Instruction::new("LDY", 3, 4, AddressingMode::Absolute_X);

    table[0x85] = Instruction::new("STA", 2, 3, AddressingMode::ZeroPage);
    table[0x95] = Instruction::new("STA", 2, 4, AddressingMode::ZeroPage_X);
    table[0x8d] = Instruction::new("STA", 3, 4, AddressingMode::Absolute);
    table[0x9d] = Instruction::new("STA", 3, 5, AddressingMode::Absolute_X);
    table[0x99] = Instruction::new("STA", 3, 5, AddressingMode::Absolute_Y);
    table[0x81] = Instruction::new("STA", 2, 6, AddressingMode::Indirect_X);
    table[0x91] = Instruction::new("STA", 2, 6, AddressingMode::Indirect_Y);

    table[0x86] = Instruction::new("STX", 2, 3, AddressingMode::ZeroPage);
    table[0x96] = Instruction::new("STX", 2, 4, AddressingMode::ZeroPage_Y);
    table[0x8e] = Instruction::new("STX", 3, 4, AddressingMode::Absolute);

    table[0x84] = Instruction::new("STY", 2, 3, AddressingMode::ZeroPage);
    table[0x94] = Instruction::new("STY", 2, 4, AddressingMode::ZeroPage_X);
    table[0x8c] = Instruction::new("STY", 3, 4, AddressingMode::Absolute);

    table[0xaa] = Instruction::new("TAX", 1, 2, AddressingMode::Implied);
    table[0xa8] = Instruction::new("TAY", 1, 2, AddressingMode::Implied);
    table[0x8a] = Instruction::new("TXA", 1, 2, AddressingMode::Implied);
    table[0x98] = Instruction::new("TYA", 1, 2, AddressingMode::Implied);
    table[0xba] = Instruction::new("TSX", 1, 2, AddressingMode::Implied);
    table[0x9a] = Instruction::new("TXS", 1, 2, AddressingMode::Implied);

    table[0x48] = Instruction::new("PHA", 1, 3, AddressingMode::Implied);
    table[0x08] = Instruction::new("PHP", 1, 3, AddressingMode::Implied);
    table[0x68] = Instruction::new("PLA", 1, 4, AddressingMode::Implied);
    table[0x28] = Instruction::new("PLP", 1, 4, AddressingMode::Implied);

    table[0x29] = Instruction::new("AND", 2, 2, AddressingMode::Immediate);
    table[0x25] = Instruction::new("AND", 2, 3, AddressingMode::ZeroPage);
    table[0x35] = Instruction::new("AND", 2, 4, AddressingMode::ZeroPage_X);
    table[0x2d] = Instruction::new("AND", 3, 4, AddressingMode::Absolute);
    table[0x3d] = Instruction::new("AND", 3, 4, AddressingMode::Absolute_X);
    table[0x39] = Instruction::new("AND", 3, 4, AddressingMode::Absolute_Y);
    table[0x21] = Instruction::new("AND", 2, 6, AddressingMode::Indirect_X);
    table[0x31] = Instruction::new("AND", 2, 5, AddressingMode::Indirect_Y);

    table[0x49] = Instruction::new("EOR", 2, 2, AddressingMode::Immediate);
    table[0x45] = Instruction::new("EOR", 2, 3, AddressingMode::ZeroPage);
    table[0x55] = Instruction::new("EOR", 2, 4, AddressingMode::ZeroPage_X);
    table[0x4d] = Instruction::new("EOR", 3, 4, AddressingMode::Absolute);
    table[0x5d] = Instruction::new("EOR", 3, 4, AddressingMode::Absolute_X);
    table[0x59] = Instruction::new("EOR", 3, 4, AddressingMode::Absolute_Y);
    table[0x41] = Instruction::new("EOR", 2, 6, AddressingMode::Indirect_X);
    table[0x51] = Instruction::new("EOR", 2, 5, AddressingMode::Indirect_Y);

    table
}

} // verus!
