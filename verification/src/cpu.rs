//! The fetch/decode/execute cycle: a CPU session owning the program image,
//! the program counter and the register file, stepping over
//! variable-length instructions.

use vstd::prelude::*;

use crate::decode::{lemma_table_r_byte, spec_decode, spec_from_u8, spec_table_r, Instruction, Opcode, Operand};
use crate::registers::{Register, RegisterFile};

verus! {

/// Why a step of the cycle could not run to completion.
#[derive(Debug, Clone, Copy, PartialEq, Eq, Structural)]
pub enum ExecError {
    /// A recognized instruction whose execution semantics are not modeled;
    /// never swallowed as a no-op.
    UnimplementedInstruction,
    /// A fetch past the end of the program image; the clean end-of-program
    /// condition.
    ProgramBoundsExceeded,
}

/// The instruction forms whose execution semantics are modeled: 8-bit
/// register-to-register loads, 8-bit immediate loads, and 16-bit immediate
/// loads.
pub open spec fn implemented(inst: Instruction) -> bool {
    match inst {
        Instruction::LD(Operand::CPURegister(d), Operand::CPURegister(s)) => d.spec_is_byte()
            && s.spec_is_byte(),
        Instruction::LD(Operand::CPURegister(d), Operand::Immediate8) => d.spec_is_byte(),
        Instruction::LD(Operand::CPURegister(d), Operand::Immediate16) => d.spec_is_wide(),
        _ => false,
    }
}

/// The encoded length in bytes of an implemented instruction: one for the
/// opcode, plus one per `Immediate8` operand and two per `Immediate16`
/// operand.
pub open spec fn inst_len(inst: Instruction) -> int {
    match inst {
        Instruction::LD(_, Operand::Immediate8) => 2,
        Instruction::LD(_, Operand::Immediate16) => 3,
        _ => 1,
    }
}

/// The register file after an implemented instruction at `pc` runs, with
/// its immediate operand bytes (if any) taken from the program image right
/// after the opcode; a 16-bit immediate is little-endian, low byte first.
pub open spec fn spec_apply(
    regs: RegisterFile,
    inst: Instruction,
    prog: Seq<u8>,
    pc: int,
) -> RegisterFile {
    match inst {
        Instruction::LD(Operand::CPURegister(d), Operand::CPURegister(s)) => regs.spec_write8(
            d,
            regs.spec_read8(s),
        ),
        Instruction::LD(Operand::CPURegister(d), Operand::Immediate8) => regs.spec_write8(
            d,
            prog[pc + 1],
        ),
        Instruction::LD(Operand::CPURegister(d), Operand::Immediate16) => regs.spec_write16(
            d,
            (prog[pc + 1] + 256 * prog[pc + 2]) as u16,
        ),
        _ => regs,
    }
}

/// The instruction that the byte at `pc` of the program image decodes to.
pub open spec fn decoded_at(prog: Seq<u8>, pc: int) -> Instruction {
    spec_decode(spec_from_u8(prog[pc]))
}

/// The register file that a full run from `pc` reaches, or the error that
/// stops it: the run ends cleanly when the program counter leaves the
/// image, and fails on the first unimplemented instruction or on an
/// instruction whose operand bytes lie past the end.
pub open spec fn spec_run(regs: RegisterFile, pc: int, prog: Seq<u8>) -> Result<
    RegisterFile,
    ExecError,
>
    decreases prog.len() - pc,
{
    if pc >= prog.len() {
        Ok(regs)
    } else {
        let inst = decoded_at(prog, pc);
        if !implemented(inst) {
            Err(ExecError::UnimplementedInstruction)
        } else if pc + inst_len(inst) > prog.len() {
            Err(ExecError::ProgramBoundsExceeded)
        } else {
            spec_run(spec_apply(regs, inst, prog, pc), pc + inst_len(inst), prog)
        }
    }
}

/// One CPU session: the immutable program image, the program counter, and
/// the register file. Only instruction execution mutates the counter and
/// the registers.
#[derive(Debug)]
pub struct CPU {
    pub program: Vec<u8>,
    pub pc: u16,
    pub registers: RegisterFile,
}

impl CPU {
    /// A fresh session over a program image: the counter at zero and every
    /// architectural register seeded to zero.
    pub fn new(program: Vec<u8>) -> (cpu: CPU)
        ensures
            cpu.program@ == program@,
            cpu.pc == 0,
            cpu.registers == (RegisterFile { af: 0, bc: 0, de: 0, hl: 0, sp: 0 }),
            forall|r: Register|
                r.spec_is_byte() || r.spec_is_wide() ==> cpu.registers.spec_value(r) == 0,
    {
        proof {
            assert(crate::registers::hi8(0) == 0 && crate::registers::lo8(0) == 0)
                by (bit_vector);
        }
        CPU { program, pc: 0, registers: RegisterFile::new() }
    }

    /// Returns the byte at the program counter and advances the counter by
    /// one; the rest of the session is untouched.
    pub fn fetch_u8(&mut self) -> (b: u8)
        requires
            old(self).pc < old(self).program@.len(),
            old(self).program@.len() <= u16::MAX,
        ensures
            b == old(self).program@[old(self).pc as int],
            final(self).pc == old(self).pc + 1,
            final(self).program@ == old(self).program@,
            final(self).registers == old(self).registers,
    {
        let b = self.program[self.pc as usize];
        self.pc = self.pc + 1;
        b
    }

    /// Returns the byte at the program counter without advancing it.
    pub fn fetch(&self) -> (b: u8)
        requires
            self.pc < self.program@.len(),
        ensures
            b == self.program@[self.pc as int],
    {
        self.program[self.pc as usize]
    }

    /// Decomposes and decodes one opcode byte.
    pub fn decode(&self, opcode: u8) -> (inst: Instruction)
        ensures
            inst == spec_decode(spec_from_u8(opcode)),
    {
        Opcode::from_u8(opcode).decode()
    }

    /// The current value of a register, an 8-bit one widened. The name set
    /// is closed: `PC` is not stored in the register file, so looking it up
    /// here is a contract violation, not a recoverable error.
    pub fn get_register(&self, reg: Register) -> (v: u16)
        requires
            reg.is_byte() || reg.is_wide(),
        ensures
            v == self.registers.spec_value(reg),
    {
        if reg.is_byte() {
            self.registers.read8(reg) as u16
        } else {
            self.registers.read16(reg)
        }
    }

    /// Writes a register; an 8-bit name takes an 8-bit value. Writes are
    /// visible through every overlapping name.
    pub fn set_register(&mut self, reg: Register, value: u16)
        requires
            reg.is_byte() || reg.is_wide(),
            reg.is_byte() ==> value <= 0xff,
        ensures
            final(self).registers == old(self).registers.spec_set(reg, value),
            final(self).pc == old(self).pc,
            final(self).program@ == old(self).program@,
    {
        if reg.is_byte() {
            self.registers.write8(reg, value as u8);
        } else {
            self.registers.write16(reg, value);
        }
    }

    /// Fetches, decodes and executes the instruction at the program
    /// counter and returns it, for tracing. Fails without mutating the
    /// session when the counter is already past the end, when the decoded
    /// instruction is not implemented, or when its operand bytes lie past
    /// the end.
    pub fn step(&mut self) -> (r: Result<Instruction, ExecError>)
        requires
            old(self).program@.len() <= u16::MAX,
        ensures
            ({
                let prog = old(self).program@;
                let pc = old(self).pc as int;
                if pc >= prog.len() {
                    r == Err::<Instruction, ExecError>(ExecError::ProgramBoundsExceeded)
                        && *final(self) == *old(self)
                } else {
                    let inst = decoded_at(prog, pc);
                    if !implemented(inst) {
                        r == Err::<Instruction, ExecError>(ExecError::UnimplementedInstruction)
                            && *final(self) == *old(self)
                    } else if pc + inst_len(inst) > prog.len() {
                        r == Err::<Instruction, ExecError>(ExecError::ProgramBoundsExceeded)
                            && *final(self) == *old(self)
                    } else {
                        r == Ok::<Instruction, ExecError>(inst)
                            && final(self).pc == pc + inst_len(inst)
                            && final(self).program@ == prog
                            && final(self).registers == spec_apply(
                            old(self).registers,
                            inst,
                            prog,
                            pc,
                        )
                    }
                }
            }),
    {
        if (self.pc as usize) >= self.program.len() {
            return Err(ExecError::ProgramBoundsExceeded);
        }
        let opcode = self.fetch();
        let inst = self.decode(opcode);
        match inst.execute(self) {
            Ok(()) => Ok(inst),
            Err(e) => Err(e),
        }
    }

    /// Steps until the program counter leaves the program image, or until
    /// a step fails; the registers then hold exactly what [`spec_run`]
    /// gives for the starting state.
    pub fn run(&mut self) -> (r: Result<(), ExecError>)
        requires
            old(self).program@.len() <= u16::MAX,
        ensures
            final(self).program@ == old(self).program@,
            ({
                let res = spec_run(old(self).registers, old(self).pc as int, old(self).program@);
                match res {
                    Ok(regs) => r == Ok::<(), ExecError>(()) && final(self).registers == regs
                        && final(self).pc >= old(self).program@.len() && (old(self).pc
                        <= old(self).program@.len() ==> final(self).pc
                        == old(self).program@.len()),
                    Err(e) => r == Err::<(), ExecError>(e),
                }
            }),
    {
        let ghost regs0 = self.registers;
        let ghost pc0 = self.pc;
        let ghost prog0 = self.program@;
        while (self.pc as usize) < self.program.len()
            invariant
                regs0 == old(self).registers,
                pc0 == old(self).pc,
                prog0 == old(self).program@,
                self.program@ == prog0,
                prog0.len() <= u16::MAX,
                spec_run(self.registers, self.pc as int, prog0) == spec_run(
                    regs0,
                    pc0 as int,
                    prog0,
                ),
                pc0 <= prog0.len() ==> self.pc <= prog0.len(),
                pc0 > prog0.len() ==> self.pc == pc0,
            decreases prog0.len() - self.pc,
        {
            let ghost pre = *self;
            match self.step() {
                Ok(_) => {
                    proof {
                        assert(spec_run(pre.registers, pre.pc as int, prog0) == spec_run(
                            self.registers,
                            self.pc as int,
                            prog0,
                        ));
                    }
                },
                Err(e) => {
                    proof {
                        assert(spec_run(pre.registers, pre.pc as int, prog0) == Err::<
                            RegisterFile,
                            ExecError,
                        >(e));
                    }
                    return Err(e);
                },
            }
        }
        Ok(())
    }
}

/// Round trip for register-to-register loads: executing `LD d, s` over any
/// two direct 8-bit registers copies the source's current value into the
/// destination and alters no other register — every other 8-bit register,
/// and every 16-bit slot other than the one the destination is a half of,
/// reads back unchanged.
pub proof fn lemma_ld_register_round_trip(
    regs: RegisterFile,
    prog: Seq<u8>,
    pc: int,
    d: Register,
    s: Register,
)
    requires
        d.spec_is_byte(),
        s.spec_is_byte(),
    ensures
        ({
            let inst = Instruction::LD(Operand::CPURegister(d), Operand::CPURegister(s));
            let after = spec_apply(regs, inst, prog, pc);
            &&& after.spec_read8(d) == regs.spec_read8(s)
            &&& forall|o: Register|
                o.spec_is_byte() && o != d ==> after.spec_read8(o) == regs.spec_read8(o)
            &&& forall|o: Register|
                o.spec_is_wide() && o != d.pair() ==> after.spec_read16(o) == regs.spec_read16(o)
        }),
{
    crate::registers::lemma_write8_frame(regs, d, regs.spec_read8(s));
}

/// The register-to-register round trip, end to end from the decoder's
/// `x = 1` table: any pair of table indices other than the indirect slot 6
/// decodes to an implemented one-byte load whose execution copies the
/// source register into the destination and leaves every other 8-bit
/// register unchanged.
pub proof fn lemma_x1_table_round_trip(regs: RegisterFile, prog: Seq<u8>, pc: int, op: Opcode)
    requires
        op.x == 1,
        op.y <= 7,
        op.z <= 7,
        op.y != 6,
        op.z != 6,
    ensures
        spec_decode(op) == Instruction::LD(spec_table_r(op.y as int), spec_table_r(op.z as int)),
        implemented(spec_decode(op)),
        inst_len(spec_decode(op)) == 1,
        ({
            let after = spec_apply(regs, spec_decode(op), prog, pc);
            &&& spec_table_r(op.y as int) matches Operand::CPURegister(d)
                && spec_table_r(op.z as int) matches Operand::CPURegister(s)
                && after.spec_read8(d) == regs.spec_read8(s)
                && (forall|o: Register|
                    o.spec_is_byte() && o != d ==> after.spec_read8(o) == regs.spec_read8(o))
        }),
{
    lemma_table_r_byte(op.y as int);
    lemma_table_r_byte(op.z as int);
    match spec_table_r(op.y as int) {
        Operand::CPURegister(d) => match spec_table_r(op.z as int) {
            Operand::CPURegister(s) => lemma_ld_register_round_trip(regs, prog, pc, d, s),
            _ => (),
        },
        _ => (),
    }
}

/// The program counter advances by exactly the instruction's encoded
/// length: by one over a one-byte instruction, by two when an `Immediate8`
/// operand follows the opcode, and by three when an `Immediate16` does.
/// Together with `execute`'s postcondition `pc + inst_len`, this pins the
/// advancement of every implemented form.
pub proof fn lemma_pc_advancement(inst: Instruction)
    ensures
        (inst matches Instruction::LD(_, Operand::CPURegister(_))) ==> inst_len(inst) == 1,
        (inst matches Instruction::LD(_, Operand::Immediate8)) ==> inst_len(inst) == 2,
        (inst matches Instruction::LD(_, Operand::Immediate16)) ==> inst_len(inst) == 3,
{
}

impl Instruction {
    /// Applies this instruction's effect to the session: advances the
    /// counter past the opcode byte, fetches the operand bytes an
    /// immediate form demands, and writes the register file. An
    /// unrecognized or unimplemented instruction is reported, never
    /// silently skipped; an instruction whose operand bytes lie past the
    /// end of the program reports the bounds error without mutating the
    /// session.
    pub fn execute(&self, cpu: &mut CPU) -> (r: Result<(), ExecError>)
        requires
            old(cpu).program@.len() <= u16::MAX,
        ensures
            (r matches Ok(_)) <==> implemented(*self)
                && old(cpu).pc + inst_len(*self) <= old(cpu).program@.len(),
            !implemented(*self) ==> r == Err::<(), ExecError>(ExecError::UnimplementedInstruction),
            implemented(*self) && old(cpu).pc + inst_len(*self) > old(cpu).program@.len()
                ==> r == Err::<(), ExecError>(ExecError::ProgramBoundsExceeded),
            (r matches Err(_)) ==> *final(cpu) == *old(cpu),
            (r matches Ok(_)) ==> final(cpu).pc == old(cpu).pc + inst_len(*self)
                && final(cpu).program@ == old(cpu).program@
                && final(cpu).registers == spec_apply(
                old(cpu).registers,
                *self,
                old(cpu).program@,
                old(cpu).pc as int,
            ),
    {
        match self {
            Instruction::LD(Operand::CPURegister(dst), Operand::CPURegister(src)) => {
                if dst.is_byte() && src.is_byte() {
                    if (cpu.pc as usize) < cpu.program.len() {
                        let v = cpu.registers.read8(*src);
                        cpu.registers.write8(*dst, v);
                        cpu.pc = cpu.pc + 1;
                        Ok(())
                    } else {
                        Err(ExecError::ProgramBoundsExceeded)
                    }
                } else {
                    Err(ExecError::UnimplementedInstruction)
                }
            },
            Instruction::LD(Operand::CPURegister(dst), Operand::Immediate8) => {
                if dst.is_byte() {
                    if (cpu.pc as usize) + 2 <= cpu.program.len() {
                        let v = cpu.program[(cpu.pc as usize) + 1];
                        cpu.registers.write8(*dst, v);
                        cpu.pc = cpu.pc + 2;
                        Ok(())
                    } else {
                        Err(ExecError::ProgramBoundsExceeded)
                    }
                } else {
                    Err(ExecError::UnimplementedInstruction)
                }
            },
            Instruction::LD(Operand::CPURegister(dst), Operand::Immediate16) => {
                if dst.is_wide() {
                    if (cpu.pc as usize) + 3 <= cpu.program.len() {
                        let lo = cpu.program[(cpu.pc as usize) + 1];
                        let hi = cpu.program[(cpu.pc as usize) + 2];
                        let v = (lo as u16) + 256 * (hi as u16);
                        cpu.registers.write16(*dst, v);
                        cpu.pc = cpu.pc + 3;
                        Ok(())
                    } else {
                        Err(ExecError::ProgramBoundsExceeded)
                    }
                } else {
                    Err(ExecError::UnimplementedInstruction)
                }
            },
            _ => Err(ExecError::UnimplementedInstruction),
        }
    }
}

} // verus!
