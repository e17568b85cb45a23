//! The CPU core: registers, status flags, program counter and a 64 KiB
//! memory, with a fetch/decode/execute loop over the minimal opcode set
//! (LDA immediate, TAX, INX, BRK) and an addressing-mode resolver for the
//! full set of modes the instruction table reserves.
//!
//! The behaviour of every operation is stated against a mathematical model:
//! [`CpuState`] is the abstract state, [`run_from`] the one-step-at-a-time
//! interpretation of memory from the program counter, and each executable
//! method's contract pins its result to that model.

use vstd::prelude::*;

use crate::errors::EmuError;
use crate::flags::lemma_result_flag_law;
use crate::flags::negative_flag_set;
use crate::flags::with_negative_flag;
use crate::flags::with_result_flags;
use crate::flags::with_zero_flag;
use crate::flags::zero_flag_set;

verus! {

/// How an instruction's operand address is computed from the bytes that
/// follow the opcode. `NoneAdressing` is the sentinel mode of unassigned
/// table entries.
#[derive(Clone, Copy, Debug)]
#[allow(non_camel_case_types)]
pub enum AddressingMode {
    Implied,
    Accumulator,
    Immediate,
    ZeroPage,
    ZeroPage_X,
    ZeroPage_Y,
    Relative,
    Absolute,
    Absolute_X,
    Absolute_Y,
    Indirect_X,
    Indirect_Y,
    NoneAdressing,
}

/// The abstract CPU state: accumulator, index registers, status byte,
/// program counter and the 64 KiB memory as a sequence of bytes.
pub ghost struct CpuState {
    pub a: u8,
    pub x: u8,
    pub y: u8,
    pub status: u8,
    pub pc: u16,
    pub mem: Seq<u8>,
}

impl CpuState {
    /// Well-formed states model the whole 16-bit address space: exactly
    /// 0x10000 bytes of memory.
    pub open spec fn wf(self) -> bool {
        self.mem.len() == 0x10000
    }
}

/// The little-endian 16-bit word stored at `addr`: low byte at `addr`,
/// high byte at `addr + 1`.
pub open spec fn word_at(mem: Seq<u8>, addr: int) -> u16 {
    (mem[addr] + mem[addr + 1] * 256) as u16
}

/// State after LDA: the accumulator holds the operand and the Zero and
/// Negative flags reflect it.
pub open spec fn lda_state(s: CpuState, value: u8) -> CpuState {
    CpuState { a: value, status: with_result_flags(s.status, value), ..s }
}

/// State after TAX: the X register holds a copy of the accumulator and the
/// Zero and Negative flags reflect it.
pub open spec fn tax_state(s: CpuState) -> CpuState {
    CpuState { x: s.a, status: with_result_flags(s.status, s.a), ..s }
}

/// State after INX: the X register is incremented with 8-bit wraparound
/// (0xFF + 1 is 0x00, no carry) and the Zero and Negative flags reflect the
/// new value.
pub open spec fn inx_state(s: CpuState) -> CpuState {
    let incremented = ((s.x + 1) % 256) as u8;
    CpuState { x: incremented, status: with_result_flags(s.status, incremented), ..s }
}

/// Memory after a program image is loaded: the image sits verbatim at
/// 0x8000, and the reset vector at 0xFFFC-0xFFFD holds the load address
/// 0x8000 little-endian, written after the copy.
pub open spec fn mem_after_load(mem: Seq<u8>, program: Seq<u8>) -> Seq<u8> {
    let copied = Seq::new(
        mem.len(),
        |i: int|
            if 0x8000 <= i && i < 0x8000 + program.len() {
                program[i - 0x8000]
            } else {
                mem[i]
            },
    );
    copied.update(0xFFFC, 0x00u8).update(0xFFFD, 0x80u8)
}

/// State after `load`: only the memory changes.
pub open spec fn load_state(s: CpuState, program: Seq<u8>) -> CpuState {
    CpuState { mem: mem_after_load(s.mem, program), ..s }
}

/// State after `reset`: registers and status cleared, program counter read
/// from the reset vector at 0xFFFC, memory untouched.
pub open spec fn reset_state(s: CpuState) -> CpuState {
    CpuState { a: 0, x: 0, y: 0, status: 0, pc: word_at(s.mem, 0xFFFC), ..s }
}

/// What a run of the fetch/decode/execute loop amounts to.
pub ghost enum RunOutcome {
    /// The break opcode 0x00 was fetched; `end` is the state the CPU is
    /// left in (the program counter rests one past the break opcode).
    Halted { end: CpuState },
    /// An opcode with no execution handler was fetched: `opcode` is its
    /// value, `at` the program counter it was fetched from, and `end` the
    /// state the CPU is left in.
    Unimplemented { opcode: u8, at: u16, end: CpuState },
    /// The program counter would have to advance past the top of the
    /// address space, where no further fetch is defined; `run` excludes
    /// these starting states by precondition.
    RunsOffEnd,
}

impl RunOutcome {
    /// True of the outcome that `run` refuses by precondition.
    pub open spec fn runs_off_end(self) -> bool {
        self is RunsOffEnd
    }
}

/// The meaning of the fetch/decode/execute loop from state `s`: fetch the
/// opcode at the program counter, advance past it, execute, and repeat
/// until the break opcode halts the run or an unassigned opcode is fetched.
/// The program counter strictly increases, which bounds the recursion.
pub open spec fn run_from(s: CpuState) -> RunOutcome
    recommends
        s.wf(),
    decreases 0x10000 - s.pc,
{
    if s.pc == 0xFFFF {
        RunOutcome::RunsOffEnd
    } else {
        let opcode = s.mem[s.pc as int];
        let pc1 = (s.pc + 1) as u16;
        if opcode == 0x00 {
            RunOutcome::Halted { end: CpuState { pc: pc1, ..s } }
        } else if opcode == 0xA9 {
            if pc1 == 0xFFFF {
                RunOutcome::RunsOffEnd
            } else {
                run_from(
                    CpuState { pc: (pc1 + 1) as u16, ..lda_state(s, s.mem[pc1 as int]) },
                )
            }
        } else if opcode == 0xAA {
            run_from(CpuState { pc: pc1, ..tax_state(s) })
        } else if opcode == 0xE8 {
            run_from(CpuState { pc: pc1, ..inx_state(s) })
        } else {
            RunOutcome::Unimplemented { opcode, at: s.pc, end: CpuState { pc: pc1, ..s } }
        }
    }
}

/// A relative branch operand read as a signed 8-bit offset.
pub open spec fn sign_extended(offset: u8) -> int {
    if offset < 0x80 {
        offset as int
    } else {
        offset - 256
    }
}

/// The effective operand address an addressing mode yields, with `pc`
/// pointing at the first operand byte (the opcode already consumed), or
/// `None` for the modes that name no memory location. Indexed zero-page
/// addresses wrap within page 0; absolute and post-indexed addresses wrap
/// modulo the 16-bit address space; a relative operand is a signed offset
/// from the instruction that follows the branch.
pub open spec fn operand_address_spec(s: CpuState, mode: AddressingMode, pc: u16) -> Option<u16>
    recommends
        s.wf(),
{
    match mode {
        AddressingMode::Implied => None,
        AddressingMode::Accumulator => None,
        AddressingMode::Immediate => None,
        AddressingMode::NoneAdressing => None,
        AddressingMode::ZeroPage => Some(s.mem[pc as int] as u16),
        AddressingMode::ZeroPage_X => Some((((s.mem[pc as int] + s.x) % 256) as u16)),
        AddressingMode::ZeroPage_Y => Some((((s.mem[pc as int] + s.y) % 256) as u16)),
        AddressingMode::Absolute => Some(word_at(s.mem, pc as int)),
        AddressingMode::Absolute_X => Some(
            (((word_at(s.mem, pc as int) + s.x) % 0x10000) as u16),
        ),
        AddressingMode::Absolute_Y => Some(
            (((word_at(s.mem, pc as int) + s.y) % 0x10000) as u16),
        ),
        AddressingMode::Indirect_X => Some(word_at(s.mem, (s.mem[pc as int] + s.x) % 256)),
        AddressingMode::Indirect_Y => Some(
            (((word_at(s.mem, s.mem[pc as int] as int) + s.y) % 0x10000) as u16),
        ),
        AddressingMode::Relative => Some(
            (((pc + 1 + sign_extended(s.mem[pc as int])) % 0x10000) as u16),
        ),
    }
}

/// The CPU core. It exclusively owns its 64 KiB memory; registers, status
/// and program counter are the inspection surface a test reads after a run.
/// The Y index register is reserved by the table's addressing modes and is
/// written by no opcode of the current set.
pub struct CPU {
    pub register_a: u8,
    pub register_x: u8,
    pub register_y: u8,
    pub status: u8,
    pub program_counter: u16,
    memory: Vec<u8>,
}

impl View for CPU {
    type V = CpuState;

    closed spec fn view(&self) -> CpuState {
        CpuState {
            a: self.register_a,
            x: self.register_x,
            y: self.register_y,
            status: self.status,
            pc: self.program_counter,
            mem: self.memory@,
        }
    }
}

impl CPU {
    /// A fresh CPU: every register, the status byte and the program counter
    /// zero, and all 0x10000 bytes of memory zero-initialized.
    pub fn new() -> (cpu: Self)
        ensures
            cpu@.wf(),
            cpu@ == (CpuState {
                a: 0,
                x: 0,
                y: 0,
                status: 0,
                pc: 0,
                mem: Seq::new(0x10000, |i: int| 0u8),
            }),
    {
        let mut memory: Vec<u8> = Vec::new();
        while memory.len() < 0x10000
            invariant
                memory@.len() <= 0x10000,
                forall|i: int| 0 <= i < memory@.len() ==> memory@[i] == 0u8,
            decreases 0x10000 - memory@.len(),
        {
            memory.push(0);
        }
        proof {
            assert(memory@ =~= Seq::new(0x10000, |i: int| 0u8));
        }
        CPU {
            register_a: 0,
            register_x: 0,
            register_y: 0,
            status: 0,
            program_counter: 0,
            memory,
        }
    }

    /// The byte stored at `addr`; total over the address space.
    fn mem_read(&self, addr: u16) -> (data: u8)
        requires
            self@.wf(),
        ensures
            data == self@.mem[addr as int],
    {
        self.memory[addr as usize]
    }

    /// Stores `data` at `addr`; no effect beyond the store.
    fn mem_write(&mut self, addr: u16, data: u8)
        requires
            old(self)@.wf(),
        ensures
            final(self)@.wf(),
            final(self)@ == (CpuState { mem: old(self)@.mem.update(addr as int, data), ..old(self)@ }),
    {
        self.memory[addr as usize] = data;
    }

    /// The little-endian word at `pos`. The caller keeps `pos + 1` inside
    /// the address space: wraparound at the top is outside this core's
    /// scope.
    fn mem_read_u16(&self, pos: u16) -> (data: u16)
        requires
            self@.wf(),
            pos < 0xFFFF,
        ensures
            data == word_at(self@.mem, pos as int),
    {
        let lo = self.mem_read(pos) as u16;
        let hi = self.mem_read(pos + 1) as u16;
        proof {
            assert((hi << 8) | lo == hi * 256 + lo) by (bit_vector)
                requires
                    lo < 256 && hi < 256,
            ;
        }
        (hi << 8) | lo
    }

    /// Stores a little-endian word at `pos`: low byte at `pos`, high byte
    /// at `pos + 1`. Same edge condition on `pos + 1` as `mem_read_u16`.
    fn mem_write_u16(&mut self, pos: u16, data: u16)
        requires
            old(self)@.wf(),
            pos < 0xFFFF,
        ensures
            final(self)@.wf(),
            final(self)@ == (CpuState {
                mem: old(self)@.mem.update(pos as int, (data % 256) as u8).update(
                    pos as int + 1,
                    (data / 256) as u8,
                ),
                ..old(self)@
            }),
            word_at(final(self)@.mem, pos as int) == data,
    {
        proof {
            assert(data & 0xff == data % 256 && data >> 8 == data / 256) by (bit_vector);
        }
        let lo = (data & 0xff) as u8;
        let hi = (data >> 8) as u8;
        self.mem_write(pos, lo);
        self.mem_write(pos + 1, hi);
    }

    /// Clears the registers and the status byte and fetches the program
    /// counter from the reset vector at 0xFFFC. Called before `run`
    /// whenever a new program has been loaded.
    pub fn reset(&mut self)
        requires
            old(self)@.wf(),
        ensures
            final(self)@.wf(),
            final(self)@ == reset_state(old(self)@),
    {
        self.register_a = 0;
        self.register_x = 0;
        self.register_y = 0;
        self.status = 0;
        self.program_counter = self.mem_read_u16(0xFFFC);
    }

    /// Copies the program image into memory at the load address 0x8000 and
    /// points the reset vector there. An image longer than the 0x8000 bytes
    /// of room above the load address is rejected as `OutOfBoundsLoad` and
    /// the CPU is left untouched.
    pub fn load(&mut self, program: Vec<u8>) -> (result: Result<(), EmuError>)
        requires
            old(self)@.wf(),
        ensures
            final(self)@.wf(),
            program@.len() <= 0x8000 ==> result is Ok && final(self)@ == load_state(
                old(self)@,
                program@,
            ),
            program@.len() > 0x8000 ==> result == Err::<(), EmuError>(
                EmuError::OutOfBoundsLoad { len: program@.len() as usize },
            ) && final(self)@ == old(self)@,
    {
        if program.len() > 0x8000 {
            return Err(EmuError::OutOfBoundsLoad { len: program.len() });
        }
        let ghost orig: CpuState = self@;
        let mut i: usize = 0;
        while i < program.len()
            invariant
                self@.wf(),
                i <= program@.len(),
                program@.len() <= 0x8000,
                orig.wf(),
                self@.a == orig.a && self@.x == orig.x && self@.y == orig.y,
                self@.status == orig.status && self@.pc == orig.pc,
                forall|j: int| 0 <= j < i ==> self@.mem[0x8000 + j] == program@[j],
                forall|j: int|
                    0 <= j < 0x10000 && !(0x8000 <= j < 0x8000 + i) ==> self@.mem[j] == orig.mem[j],
            decreases program@.len() - i,
        {
            self.mem_write((0x8000 + i) as u16, program[i]);
            i = i + 1;
        }
        self.mem_write_u16(0xFFFC, 0x8000);
        proof {
            assert(self@.mem =~= mem_after_load(orig.mem, program@));
        }
        Ok(())
    }

    /// `load`, `reset`, `run` in sequence: the convenience entry point the
    /// tests drive. The outcome is exactly that of running from the
    /// freshly loaded and reset state; a program image too long to load is
    /// reported without touching the CPU.
    pub fn load_and_run(&mut self, program: Vec<u8>) -> (result: Result<(), EmuError>)
        requires
            old(self)@.wf(),
            program@.len() <= 0x8000 ==> !run_from(
                reset_state(load_state(old(self)@, program@)),
            ).runs_off_end(),
        ensures
            final(self)@.wf(),
            program@.len() > 0x8000 ==> result == Err::<(), EmuError>(
                EmuError::OutOfBoundsLoad { len: program@.len() as usize },
            ) && final(self)@ == old(self)@,
            program@.len() <= 0x8000 ==> (match run_from(
                reset_state(load_state(old(self)@, program@)),
            ) {
                RunOutcome::Halted { end } => result is Ok && final(self)@ == end,
                RunOutcome::Unimplemented { opcode, at, end } => result == Err::<(), EmuError>(
                    EmuError::UnimplementedOpcode { opcode, program_counter: at },
                ) && final(self)@ == end,
                RunOutcome::RunsOffEnd => false,
            }),
    {
        match self.load(program) {
            Err(e) => Err(e),
            Ok(()) => {
                self.reset();
                self.run()
            },
        }
    }

    /// LDA: load the operand into the accumulator and update the Zero and
    /// Negative flags from it.
    fn lda(&mut self, value: u8)
        ensures
            final(self)@ == lda_state(old(self)@, value),
    {
        self.register_a = value;
        self.update_zero_flag(self.register_a);
        self.update_negative_flag(self.register_a);
    }

    /// TAX: copy the accumulator into the X register and update the Zero
    /// and Negative flags from it.
    fn tax(&mut self)
        ensures
            final(self)@ == tax_state(old(self)@),
    {
        self.register_x = self.register_a;
        self.update_zero_flag(self.register_x);
        self.update_negative_flag(self.register_x);
    }

    /// INX: increment the X register with 8-bit wraparound and update the
    /// Zero and Negative flags from the new value.
    fn inx(&mut self)
        ensures
            final(self)@ == inx_state(old(self)@),
    {
        self.register_x = self.register_x.wrapping_add(1);
        self.update_zero_flag(self.register_x);
        self.update_negative_flag(self.register_x);
    }

    /// Sets or clears the Zero flag from a result byte with a masked OR /
    /// AND, leaving every other status bit untouched.
    fn update_zero_flag(&mut self, result: u8)
        ensures
            final(self)@ == (CpuState {
                status: with_zero_flag(old(self)@.status, result),
                ..old(self)@
            }),
    {
        if result == 0 {
            self.status = self.status | 0b0000_0010;
        } else {
            self.status = self.status & 0b1111_1101;
        }
    }

    /// Sets or clears the Negative flag from bit 7 of a result byte with a
    /// masked OR / AND, leaving every other status bit untouched.
    fn update_negative_flag(&mut self, result: u8)
        ensures
            final(self)@ == (CpuState {
                status: with_negative_flag(old(self)@.status, result),
                ..old(self)@
            }),
    {
        if result & 0b1000_0000 != 0 {
            self.status = self.status | 0b1000_0000;
        } else {
            self.status = self.status & 0b0111_1111;
        }
    }

    /// The fetch/decode/execute loop: reads the opcode at the program
    /// counter, advances past it, executes, and repeats until the break
    /// opcode halts the run. An opcode with no execution handler is
    /// reported as `UnimplementedOpcode` with its value and the program
    /// counter it was fetched from. The final state is exactly the one the
    /// step model `run_from` assigns to the starting state.
    pub fn run(&mut self) -> (result: Result<(), EmuError>)
        requires
            old(self)@.wf(),
            !run_from(old(self)@).runs_off_end(),
        ensures
            final(self)@.wf(),
            (match run_from(old(self)@) {
                RunOutcome::Halted { end } => result is Ok && final(self)@ == end,
                RunOutcome::Unimplemented { opcode, at, end } => result == Err::<(), EmuError>(
                    EmuError::UnimplementedOpcode { opcode, program_counter: at },
                ) && final(self)@ == end,
                RunOutcome::RunsOffEnd => false,
            }),
    {
        loop
            invariant
                self@.wf(),
                run_from(self@) == run_from(old(self)@),
                !run_from(old(self)@).runs_off_end(),
            decreases 0x10000 - self.program_counter,
        {
            proof {
                assert(self.program_counter != 0xFFFF) by {
                    if self@.pc == 0xFFFF {
                        assert(run_from(self@) is RunsOffEnd);
                    }
                };
            }
            let at = self.program_counter;
            let opcode = self.mem_read(at);
            self.program_counter = at + 1;
            match opcode {
                0xA9 => {
                    proof {
                        assert(self.program_counter != 0xFFFF) by {
                            if self@.pc == 0xFFFF {
                                assert(run_from(old(self)@) is RunsOffEnd);
                            }
                        };
                    }
                    let param = self.mem_read(self.program_counter);
                    self.program_counter = self.program_counter + 1;
                    self.lda(param);
                },
                0xAA => {
                    self.tax();
                },
                0xE8 => {
                    self.inx();
                },
                0x00 => {
                    return Ok(());
                },
                _ => {
                    return Err(EmuError::UnimplementedOpcode { opcode, program_counter: at });
                },
            }
        }
    }

    /// Resolves the effective operand address for `mode`, with `pc`
    /// pointing at the first operand byte, exactly as
    /// [`operand_address_spec`] describes; `None` for the modes that name
    /// no memory location. The caller keeps `pc + 1` inside the address
    /// space for the modes that read a two-byte operand.
    pub fn operand_address(&self, mode: AddressingMode, pc: u16) -> (addr: Option<u16>)
        requires
            self@.wf(),
            (mode is Absolute || mode is Absolute_X || mode is Absolute_Y) ==> pc < 0xFFFF,
        ensures
            addr == operand_address_spec(self@, mode, pc),
    {
        match mode {
            AddressingMode::Implied => None,
            AddressingMode::Accumulator => None,
            AddressingMode::Immediate => None,
            AddressingMode::NoneAdressing => None,
            AddressingMode::ZeroPage => Some(self.mem_read(pc) as u16),
            AddressingMode::ZeroPage_X => {
                let base = self.mem_read(pc) as u16;
                Some((base + self.register_x as u16) % 256)
            },
            AddressingMode::ZeroPage_Y => {
                let base = self.mem_read(pc) as u16;
                Some((base + self.register_y as u16) % 256)
            },
            AddressingMode::Absolute => Some(self.mem_read_u16(pc)),
            AddressingMode::Absolute_X => {
                let base = self.mem_read_u16(pc) as u32;
                Some((((base + self.register_x as u32) % 0x10000) as u16))
            },
            AddressingMode::Absolute_Y => {
                let base = self.mem_read_u16(pc) as u32;
                Some((((base + self.register_y as u32) % 0x10000) as u16))
            },
            AddressingMode::Indirect_X => {
                let pointer = self.mem_read(pc).wrapping_add(self.register_x);
                Some(self.mem_read_u16(pointer as u16))
            },
            AddressingMode::Indirect_Y => {
                let pointer = self.mem_read(pc);
                let base = self.mem_read_u16(pointer as u16) as u32;
                Some((((base + self.register_y as u32) % 0x10000) as u16))
            },
            AddressingMode::Relative => {
                let offset = self.mem_read(pc);
                let extended: u32 = if offset < 0x80 {
                    offset as u32
                } else {
                    offset as u32 + 0xFF00
                };
                let target = ((pc as u32 + 1 + extended) % 0x10000) as u16;
                proof {
                    if offset >= 0x80 {
                        vstd::arithmetic::div_mod::lemma_mod_multiples_vanish(
                            1,
                            pc + 1 + sign_extended(offset),
                            0x10000,
                        );
                    }
                }
                Some(target)
            },
        }
    }
}

/// BRK halts immediately: when the opcode at the program counter is the
/// break opcode, the run ends at once with the registers, the status byte
/// and the memory exactly as they stand and the program counter resting
/// one past the break opcode. Nothing the outcome depends on lies beyond
/// that opcode byte, so bytes after a BRK are never fetched.
pub proof fn lemma_brk_halts_immediately(s: CpuState)
    requires
        s.wf(),
        s.pc < 0xFFFF,
        s.mem[s.pc as int] == 0x00,
    ensures
        run_from(s) == (RunOutcome::Halted {
            end: (CpuState { pc: (s.pc + 1) as u16, ..s }),
        }),
{
}

/// Round-trip law of `load` and `reset`: loading any program image that
/// fits and then resetting leaves the program counter at the load address
/// 0x8000 (read back from the reset vector) and the accumulator, the index
/// registers and the status byte all zero.
pub proof fn lemma_load_reset_round_trip(s: CpuState, program: Seq<u8>)
    requires
        s.wf(),
        program.len() <= 0x8000,
    ensures
        reset_state(load_state(s, program)).pc == 0x8000,
        reset_state(load_state(s, program)).a == 0,
        reset_state(load_state(s, program)).x == 0,
        reset_state(load_state(s, program)).y == 0,
        reset_state(load_state(s, program)).status == 0,
        reset_state(load_state(s, program)).mem == mem_after_load(s.mem, program),
{
    assert(mem_after_load(s.mem, program)[0xFFFC] == 0x00);
    assert(mem_after_load(s.mem, program)[0xFFFD] == 0x80);
}

/// Flag law of LDA, for every 8-bit value and every prior flag state: the
/// accumulator takes the value, the Zero flag ends set iff the value is
/// zero, the Negative flag ends set iff bit 7 of the value is set, and
/// every other status bit, the index registers, the program counter and
/// the memory are untouched.
pub proof fn lemma_lda_flag_law(s: CpuState, value: u8)
    ensures
        lda_state(s, value).a == value,
        zero_flag_set(lda_state(s, value).status) <==> value == 0,
        negative_flag_set(lda_state(s, value).status) <==> value & 0b1000_0000 != 0,
        negative_flag_set(lda_state(s, value).status) <==> value >= 0x80,
        lda_state(s, value).status & 0b0111_1101 == s.status & 0b0111_1101,
        lda_state(s, value).x == s.x,
        lda_state(s, value).pc == s.pc,
        lda_state(s, value).mem == s.mem,
{
    lemma_result_flag_law(s.status, value);
}

/// Flag law of TAX, for every prior state: the X register takes a copy of
/// the accumulator, the accumulator keeps its value, and the same flag law
/// as for LDA applies to the copied value.
pub proof fn lemma_tax_flag_law(s: CpuState)
    ensures
        tax_state(s).x == s.a,
        tax_state(s).a == s.a,
        zero_flag_set(tax_state(s).status) <==> s.a == 0,
        negative_flag_set(tax_state(s).status) <==> s.a & 0b1000_0000 != 0,
        negative_flag_set(tax_state(s).status) <==> s.a >= 0x80,
        tax_state(s).status & 0b0111_1101 == s.status & 0b0111_1101,
        tax_state(s).pc == s.pc,
        tax_state(s).mem == s.mem,
{
    lemma_result_flag_law(s.status, s.a);
}

/// INX law, for every prior state: the X register becomes its old value
/// plus one with 8-bit wraparound, the Zero flag ends set iff the old
/// value was 0xFF (the increment wrapped to zero), and the Negative flag
/// ends set iff the incremented value has bit 7 set (first so at 0x7F,
/// which increments to 0x80).
pub proof fn lemma_inx_wraps(s: CpuState)
    ensures
        inx_state(s).x == (s.x + 1) % 256,
        zero_flag_set(inx_state(s).status) <==> s.x == 0xFF,
        negative_flag_set(inx_state(s).status) <==> (s.x + 1) % 256 >= 0x80,
        inx_state(s).status & 0b0111_1101 == s.status & 0b0111_1101,
        inx_state(s).a == s.a,
        inx_state(s).pc == s.pc,
        inx_state(s).mem == s.mem,
{
    let incremented = ((s.x + 1) % 256) as u8;
    lemma_result_flag_law(s.status, incremented);
    assert(incremented & 0b1000_0000 != 0 <==> incremented >= 0x80) by (bit_vector);
}

} // verus!
