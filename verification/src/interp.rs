//! A register-only CPU that interprets a program handed to it directly as
//! a byte vector, with the program counter indexing into that vector. It
//! carries no memory of its own: a lighter sibling of the memory-backed
//! core in [`crate::cpu`], kept as an independently usable surface with
//! the same opcode semantics.

use vstd::prelude::*;

use crate::errors::EmuError;
use crate::flags::with_negative_flag;
use crate::flags::with_result_flags;
use crate::flags::with_zero_flag;

verus! {

/// The abstract register file: accumulator, X index register, status byte
/// and program counter.
pub ghost struct RegState {
    pub a: u8,
    pub x: u8,
    pub status: u8,
    pub pc: u16,
}

/// Register file after LDA: the accumulator holds the operand and the
/// Zero and Negative flags reflect it.
pub open spec fn lda_regs(r: RegState, value: u8) -> RegState {
    RegState { a: value, status: with_result_flags(r.status, value), ..r }
}

/// Register file after TAX: the X register holds a copy of the
/// accumulator and the Zero and Negative flags reflect it.
pub open spec fn tax_regs(r: RegState) -> RegState {
    RegState { x: r.a, status: with_result_flags(r.status, r.a), ..r }
}

/// Register file after INX: the X register is incremented with 8-bit
/// wraparound and the Zero and Negative flags reflect the new value.
pub open spec fn inx_regs(r: RegState) -> RegState {
    let incremented = ((r.x + 1) % 256) as u8;
    RegState { x: incremented, status: with_result_flags(r.status, incremented), ..r }
}

/// What a run of `interpret`'s loop amounts to.
pub ghost enum InterpOutcome {
    /// The break opcode 0x00 was fetched; `end` is the register file the
    /// CPU is left with (the program counter rests one past the break
    /// opcode).
    Halted { end: RegState },
    /// An opcode with no execution handler was fetched: `opcode` is its
    /// value, `at` the program counter it was fetched from, and `end` the
    /// register file the CPU is left with.
    Unimplemented { opcode: u8, at: u16, end: RegState },
    /// The program counter would have to leave the program image (or the
    /// 16-bit counter would have to wrap), where no further fetch is
    /// defined; `interpret` excludes these programs by precondition.
    RunsOffEnd,
}

impl InterpOutcome {
    /// True of the outcome that `interpret` refuses by precondition.
    pub open spec fn runs_off_end(self) -> bool {
        self is RunsOffEnd
    }
}

/// The meaning of interpreting `program` from register file `r`: fetch the
/// opcode the program counter indexes, advance past it, execute, and
/// repeat until the break opcode halts the run or an unassigned opcode is
/// fetched. The program counter strictly increases, which bounds the
/// recursion.
pub open spec fn interp_from(r: RegState, program: Seq<u8>) -> InterpOutcome
    decreases 0x10000 - r.pc,
{
    if r.pc >= program.len() || r.pc == 0xFFFF {
        InterpOutcome::RunsOffEnd
    } else {
        let opcode = program[r.pc as int];
        let pc1 = (r.pc + 1) as u16;
        if opcode == 0x00 {
            InterpOutcome::Halted { end: RegState { pc: pc1, ..r } }
        } else if opcode == 0xA9 {
            if pc1 >= program.len() || pc1 == 0xFFFF {
                InterpOutcome::RunsOffEnd
            } else {
                interp_from(
                    RegState { pc: (pc1 + 1) as u16, ..lda_regs(r, program[pc1 as int]) },
                    program,
                )
            }
        } else if opcode == 0xAA {
            interp_from(RegState { pc: pc1, ..tax_regs(r) }, program)
        } else if opcode == 0xE8 {
            interp_from(RegState { pc: pc1, ..inx_regs(r) }, program)
        } else {
            InterpOutcome::Unimplemented { opcode, at: r.pc, end: RegState { pc: pc1, ..r } }
        }
    }
}

/// The register-only CPU. Registers, status and program counter are the
/// inspection surface a test reads after a run; a test may also seed them
/// before handing a program to `interpret`.
pub struct CPU {
    pub register_a: u8,
    pub register_x: u8,
    pub status: u8,
    pub program_counter: u16,
}

impl View for CPU {
    type V = RegState;

    open spec fn view(&self) -> RegState {
        RegState {
            a: self.register_a,
            x: self.register_x,
            status: self.status,
            pc: self.program_counter,
        }
    }
}

impl CPU {
    /// A fresh CPU: every register, the status byte and the program
    /// counter zero.
    pub fn new() -> (cpu: Self)
        ensures
            cpu@ == (RegState { a: 0, x: 0, status: 0, pc: 0 }),
    {
        CPU { register_a: 0, register_x: 0, status: 0, program_counter: 0 }
    }

    /// LDA: load the operand into the accumulator and update the Zero and
    /// Negative flags from it.
    fn lda(&mut self, value: u8)
        ensures
            final(self)@ == lda_regs(old(self)@, value),
    {
        self.register_a = value;
        self.update_zero_flag(self.register_a);
        self.update_negative_flag(self.register_a);
    }

    /// TAX: copy the accumulator into the X register and update the Zero
    /// and Negative flags from it.
    fn tax(&mut self)
        ensures
            final(self)@ == tax_regs(old(self)@),
    {
        self.register_x = self.register_a;
        self.update_zero_flag(self.register_x);
        self.update_negative_flag(self.register_x);
    }

    /// INX: increment the X register with 8-bit wraparound and update the
    /// Zero and Negative flags from the new value.
    fn inx(&mut self)
        ensures
            final(self)@ == inx_regs(old(self)@),
    {
        self.register_x = self.register_x.wrapping_add(1);
        self.update_zero_flag(self.register_x);
        self.update_negative_flag(self.register_x);
    }

    /// Sets or clears the Zero flag from a result byte with a masked OR /
    /// AND, leaving every other status bit untouched.
    fn update_zero_flag(&mut self, result: u8)
        ensures
            final(self)@ == (RegState {
                status: with_zero_flag(old(self)@.status, result),
                ..old(self)@
            }),
    {
        if result == 0 {
            self.status = self.status | 0b0000_0010;
        } else {
            self.status = self.status & 0b1111_1101;
        }
    }

    /// Sets or clears the Negative flag from bit 7 of a result byte with a
    /// masked OR / AND, leaving every other status bit untouched.
    fn update_negative_flag(&mut self, result: u8)
        ensures
            final(self)@ == (RegState {
                status: with_negative_flag(old(self)@.status, result),
                ..old(self)@
            }),
    {
        if result & 0b1000_0000 != 0 {
            self.status = self.status | 0b1000_0000;
        } else {
            self.status = self.status & 0b0111_1111;
        }
    }

    /// Rewinds the program counter to the start of `program` and
    /// interprets it opcode by opcode until the break opcode halts the
    /// run. An opcode with no execution handler is reported as
    /// `UnimplementedOpcode` with its value and the program counter it was
    /// fetched from. The final register file is exactly the one the step
    /// model [`interp_from`] assigns.
    pub fn interpret(&mut self, program: Vec<u8>) -> (result: Result<(), EmuError>)
        requires
            !interp_from((RegState { pc: 0, ..old(self)@ }), program@).runs_off_end(),
        ensures
            (match interp_from((RegState { pc: 0, ..old(self)@ }), program@) {
                InterpOutcome::Halted { end } => result is Ok && final(self)@ == end,
                InterpOutcome::Unimplemented { opcode, at, end } => result == Err::<(), EmuError>(
                    EmuError::UnimplementedOpcode { opcode, program_counter: at },
                ) && final(self)@ == end,
                InterpOutcome::RunsOffEnd => false,
            }),
    {
        self.program_counter = 0;
        loop
            invariant
                interp_from(self@, program@) == interp_from(
                    (RegState { pc: 0, ..old(self)@ }),
                    program@,
                ),
                !interp_from((RegState { pc: 0, ..old(self)@ }), program@).runs_off_end(),
            decreases 0x10000 - self.program_counter,
        {
            proof {
                assert(self@.pc < program@.len() && self@.pc != 0xFFFF) by {
                    if self@.pc >= program@.len() || self@.pc == 0xFFFF {
                        assert(interp_from(self@, program@) is RunsOffEnd);
                    }
                };
            }
            let at = self.program_counter;
            let opcode = program[at as usize];
            self.program_counter = at + 1;
            match opcode {
                0xA9 => {
                    proof {
                        assert(self@.pc < program@.len() && self@.pc != 0xFFFF) by {
                            if self@.pc >= program@.len() || self@.pc == 0xFFFF {
                                assert(interp_from(
                                    (RegState { pc: 0, ..old(self)@ }),
                                    program@,
                                ) is RunsOffEnd);
                            }
                        };
                    }
                    let param = program[self.program_counter as usize];
                    self.program_counter = self.program_counter + 1;
                    self.lda(param);
                },
                0xAA => {
                    self.tax();
                },
                0xE8 => {
                    self.inx();
                },
                0x00 => {
                    return Ok(());
                },
                _ => {
                    return Err(EmuError::UnimplementedOpcode { opcode, program_counter: at });
                },
            }
        }
    }
}

} // verus!
