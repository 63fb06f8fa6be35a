//! Bit-field opcode decomposition and the instruction decoder: a pure,
//! total function from a decomposed opcode byte to a structured
//! instruction, organized as a dispatch keyed first by `x`, refined by
//! `z`, `y`, `q` and `p`.

use vstd::prelude::*;

use crate::registers::Register;

verus! {

/// A branch condition, selected by a 2-bit table index inside the
/// relative-jump family.
#[derive(Debug, Clone, Copy, PartialEq, Eq, Structural)]
pub enum Condition {
    NotZero,
    Zero,
    NoCarry,
    Carry,
}

/// How an instruction names a value it reads or writes. Operands that need
/// extra bytes (`Immediate8`, `Immediate16`, `IndirectImmediate`) are
/// resolved at execute time, not decode time.
#[derive(Debug, Clone, Copy, PartialEq, Eq, Structural)]
pub enum Operand {
    Immediate16,
    Immediate8,
    IndirectImmediate,
    IndirectRegister(Register),
    IndirectWithOffset(Register, Register),
    CPURegister(Register),
}

/// Every instruction the decoder models, plus an explicit `Unknown` for
/// encodings outside the modeled tables — an unrecognized byte is a value,
/// never a silent no-op.
#[derive(Debug, Clone, Copy, PartialEq, Eq, Structural)]
pub enum Instruction {
    NOP,
    Halt,
    In(Operand, u8),
    Out(u8, Operand),
    Add(Operand, Operand),
    Inc(Operand),
    Dec(Operand),
    Call(Operand),
    ConditionalRet(Condition),
    DJNZ,
    Exchange(Operand, Operand),
    LD(Operand, Operand),
    Pop(Operand),
    Push(Operand),
    UnconditionalRet,
    EXX,
    RST,
    RES(u8, Operand),
    BIT(u8, Operand),
    SET(u8, Operand),
    JR(Operand),
    ConditionalJR(Condition, Operand),
    RLCA,
    RRCA,
    RLA,
    RRA,
    DAA,
    CPL,
    SCF,
    CCF,
    Unknown,
}

/// The five canonical bit-fields of an opcode byte:
///
/// ```text
/// 7   6   5   4   3   2   1   0
/// |-x-|   |---y---|   |---z---|
///         |-p-|   q
/// ```
///
/// By construction `y == (p << 1) | q`; see [`lemma_decomposition`].
#[derive(Debug, Clone, Copy, PartialEq, Eq, Structural)]
pub struct Opcode {
    pub x: u8,
    pub y: u8,
    pub z: u8,
    pub p: u8,
    pub q: u8,
}

/// The decomposition of a byte into the five fields, by fixed shifts and
/// masks.
pub open spec fn spec_from_u8(b: u8) -> Opcode {
    Opcode {
        x: (b >> 6) & 0x03,
        y: (b >> 3) & 0x07,
        z: b & 0x07,
        p: (b >> 4) & 0x03,
        q: (b >> 3) & 0x01,
    }
}

/// Decomposition is total and well-shaped: every byte yields fields within
/// their bit widths, and the overlapping fields satisfy `y == (p << 1) | q`.
pub proof fn lemma_decomposition(b: u8)
    ensures
        spec_from_u8(b).x <= 3,
        spec_from_u8(b).y <= 7,
        spec_from_u8(b).z <= 7,
        spec_from_u8(b).p <= 3,
        spec_from_u8(b).q <= 1,
        spec_from_u8(b).y == (spec_from_u8(b).p << 1) | spec_from_u8(b).q,
{
    assert((b >> 6) & 0x03 <= 3) by (bit_vector);
    assert((b >> 3) & 0x07 <= 7) by (bit_vector);
    assert(b & 0x07 <= 7) by (bit_vector);
    assert((b >> 4) & 0x03 <= 3) by (bit_vector);
    assert((b >> 3) & 0x01 <= 1) by (bit_vector);
    assert((b >> 3) & 0x07 == ((((b >> 4) & 0x03) << 1) | ((b >> 3) & 0x01))) by (bit_vector);
}

/// The 8-entry register table indexed by a 3-bit field. Index 6 denotes
/// indirect addressing via `HL`, not a named register. Indices above 7
/// never arise from a 3-bit field; they select the accumulator.
pub open spec fn spec_table_r(i: int) -> Operand {
    if i == 0 {
        Operand::CPURegister(Register::B)
    } else if i == 1 {
        Operand::CPURegister(Register::C)
    } else if i == 2 {
        Operand::CPURegister(Register::D)
    } else if i == 3 {
        Operand::CPURegister(Register::E)
    } else if i == 4 {
        Operand::CPURegister(Register::H)
    } else if i == 5 {
        Operand::CPURegister(Register::L)
    } else if i == 6 {
        Operand::IndirectRegister(Register::HL)
    } else {
        Operand::CPURegister(Register::A)
    }
}

/// The 4-entry register-pair table indexed by `p`; its last entry is `SP`.
pub open spec fn spec_table_rp(i: int) -> Register {
    if i == 0 {
        Register::BC
    } else if i == 1 {
        Register::DE
    } else if i == 2 {
        Register::HL
    } else {
        Register::SP
    }
}

/// The 4-entry condition table indexed by `y - 4` inside the
/// relative-jump family.
pub open spec fn spec_table_cc(i: int) -> Condition {
    if i == 0 {
        Condition::NotZero
    } else if i == 1 {
        Condition::Zero
    } else if i == 2 {
        Condition::NoCarry
    } else {
        Condition::Carry
    }
}

fn table_r(i: u8) -> (op: Operand)
    ensures
        op == spec_table_r(i as int),
{
    match i {
        0 => Operand::CPURegister(Register::B),
        1 => Operand::CPURegister(Register::C),
        2 => Operand::CPURegister(Register::D),
        3 => Operand::CPURegister(Register::E),
        4 => Operand::CPURegister(Register::H),
        5 => Operand::CPURegister(Register::L),
        6 => Operand::IndirectRegister(Register::HL),
        _ => Operand::CPURegister(Register::A),
    }
}

fn table_rp(i: u8) -> (r: Register)
    ensures
        r == spec_table_rp(i as int),
{
    match i {
        0 => Register::BC,
        1 => Register::DE,
        2 => Register::HL,
        _ => Register::SP,
    }
}

fn table_cc(i: u8) -> (c: Condition)
    ensures
        c == spec_table_cc(i as int),
{
    match i {
        0 => Condition::NotZero,
        1 => Condition::Zero,
        2 => Condition::NoCarry,
        _ => Condition::Carry,
    }
}

/// The `x = 0` table: relative jumps and exchanges at `z = 0`, 16-bit
/// immediate loads and adds to `HL` at `z = 1`, the eight indirect-load
/// forms at `z = 2`, 16-bit increment/decrement at `z = 3`, 8-bit
/// increment/decrement/immediate-load at `z = 4..6`, and the eight
/// no-operand accumulator/flag instructions at `z = 7`.
pub open spec fn spec_decode_x0(op: Opcode) -> Instruction {
    if op.z == 0 {
        if op.y == 0 {
            Instruction::NOP
        } else if op.y == 1 {
            Instruction::Exchange(
                Operand::CPURegister(Register::AF),
                Operand::CPURegister(Register::AF),
            )
        } else if op.y == 2 {
            Instruction::DJNZ
        } else if op.y == 3 {
            Instruction::JR(Operand::Immediate8)
        } else if op.y <= 7 {
            Instruction::ConditionalJR(spec_table_cc(op.y - 4), Operand::Immediate8)
        } else {
            Instruction::Unknown
        }
    } else if op.z == 1 {
        if op.q == 0 {
            Instruction::LD(
                Operand::CPURegister(spec_table_rp(op.p as int)),
                Operand::Immediate16,
            )
        } else if op.q == 1 {
            Instruction::Add(
                Operand::CPURegister(Register::HL),
                Operand::CPURegister(spec_table_rp(op.p as int)),
            )
        } else {
            Instruction::Unknown
        }
    } else if op.z == 2 {
        if op.q == 0 && op.p == 0 {
            Instruction::LD(
                Operand::IndirectRegister(Register::BC),
                Operand::CPURegister(Register::A),
            )
        } else if op.q == 0 && op.p == 1 {
            Instruction::LD(
                Operand::IndirectRegister(Register::DE),
                Operand::CPURegister(Register::A),
            )
        } else if op.q == 0 && op.p == 2 {
            Instruction::LD(Operand::IndirectImmediate, Operand::CPURegister(Register::HL))
        } else if op.q == 0 && op.p == 3 {
            Instruction::LD(Operand::IndirectImmediate, Operand::CPURegister(Register::A))
        } else if op.q == 1 && op.p == 0 {
            Instruction::LD(
                Operand::CPURegister(Register::A),
                Operand::IndirectRegister(Register::BC),
            )
        } else if op.q == 1 && op.p == 1 {
            Instruction::LD(
                Operand::CPURegister(Register::A),
                Operand::IndirectRegister(Register::DE),
            )
        } else if op.q == 1 && op.p == 2 {
            Instruction::LD(Operand::CPURegister(Register::HL), Operand::IndirectImmediate)
        } else if op.q == 1 && op.p == 3 {
            Instruction::LD(Operand::CPURegister(Register::A), Operand::IndirectImmediate)
        } else {
            Instruction::Unknown
        }
    } else if op.z == 3 {
        if op.q == 0 {
            Instruction::Inc(Operand::CPURegister(spec_table_rp(op.p as int)))
        } else if op.q == 1 {
            Instruction::Dec(Operand::CPURegister(spec_table_rp(op.p as int)))
        } else {
            Instruction::Unknown
        }
    } else if op.z == 4 {
        Instruction::Inc(spec_table_r(op.y as int))
    } else if op.z == 5 {
        Instruction::Dec(spec_table_r(op.y as int))
    } else if op.z == 6 {
        Instruction::LD(spec_table_r(op.y as int), Operand::Immediate8)
    } else if op.z == 7 {
        if op.y == 0 {
            Instruction::RLCA
        } else if op.y == 1 {
            Instruction::RRCA
        } else if op.y == 2 {
            Instruction::RLA
        } else if op.y == 3 {
            Instruction::RRA
        } else if op.y == 4 {
            Instruction::DAA
        } else if op.y == 5 {
            Instruction::CPL
        } else if op.y == 6 {
            Instruction::SCF
        } else if op.y == 7 {
            Instruction::CCF
        } else {
            Instruction::Unknown
        }
    } else {
        Instruction::Unknown
    }
}

/// The `x = 1` table: `y = 6 ∧ z = 6` is the sole encoding producing
/// `Halt` (the doubled indirect-load slot); every other combination is an
/// 8-bit register-to-register load through the 8-entry register table,
/// where index 6 denotes indirect addressing via `HL`.
pub open spec fn spec_decode_x1(op: Opcode) -> Instruction {
    if op.y == 6 && op.z == 6 {
        Instruction::Halt
    } else {
        Instruction::LD(spec_table_r(op.y as int), spec_table_r(op.z as int))
    }
}

/// The decoder's dispatch on `x`: the tables for `x ∈ {0, 1}` are modeled;
/// every `x ∈ {2, 3}` encoding decodes to `Unknown`.
pub open spec fn spec_decode(op: Opcode) -> Instruction {
    if op.x == 0 {
        spec_decode_x0(op)
    } else if op.x == 1 {
        spec_decode_x1(op)
    } else {
        Instruction::Unknown
    }
}

/// Over the modeled tables the decoder has no gaps: a byte whose `x` field
/// is 0 or 1 never decodes to `Unknown`.
pub proof fn lemma_base_tables_total(b: u8)
    requires
        spec_from_u8(b).x == 0 || spec_from_u8(b).x == 1,
    ensures
        spec_decode(spec_from_u8(b)) != Instruction::Unknown,
{
    lemma_decomposition(b);
}

/// Every register-table index other than the indirect slot 6 selects a
/// direct 8-bit register operand.
pub proof fn lemma_table_r_byte(i: int)
    requires
        0 <= i < 8,
        i != 6,
    ensures
        spec_table_r(i) matches Operand::CPURegister(r) && r.spec_is_byte(),
{
}

impl Opcode {
    /// Splits a raw opcode byte into the five canonical bit-fields; pure
    /// and total, with no failure mode.
    pub fn from_u8(raw_opcode: u8) -> (op: Opcode)
        ensures
            op == spec_from_u8(raw_opcode),
            op.x <= 3,
            op.y <= 7,
            op.z <= 7,
            op.p <= 3,
            op.q <= 1,
            op.y == (op.p << 1) | op.q,
    {
        proof {
            lemma_decomposition(raw_opcode);
        }
        Opcode {
            x: (raw_opcode >> 6) & 0x03,
            y: (raw_opcode >> 3) & 0x07,
            z: raw_opcode & 0x07,
            p: (raw_opcode >> 4) & 0x03,
            q: (raw_opcode >> 3) & 0x01,
        }
    }

    fn decode_x0(self) -> (inst: Instruction)
        ensures
            inst == spec_decode_x0(self),
    {
        if self.z == 0 {
            if self.y == 0 {
                Instruction::NOP
            } else if self.y == 1 {
                Instruction::Exchange(
                    Operand::CPURegister(Register::AF),
                    Operand::CPURegister(Register::AF),
                )
            } else if self.y == 2 {
                Instruction::DJNZ
            } else if self.y == 3 {
                Instruction::JR(Operand::Immediate8)
            } else if self.y <= 7 {
                Instruction::ConditionalJR(table_cc(self.y - 4), Operand::Immediate8)
            } else {
                Instruction::Unknown
            }
        } else if self.z == 1 {
            if self.q == 0 {
                Instruction::LD(Operand::CPURegister(table_rp(self.p)), Operand::Immediate16)
            } else if self.q == 1 {
                Instruction::Add(
                    Operand::CPURegister(Register::HL),
                    Operand::CPURegister(table_rp(self.p)),
                )
            } else {
                Instruction::Unknown
            }
        } else if self.z == 2 {
            if self.q == 0 && self.p == 0 {
                Instruction::LD(
                    Operand::IndirectRegister(Register::BC),
                    Operand::CPURegister(Register::A),
                )
            } else if self.q == 0 && self.p == 1 {
                Instruction::LD(
                    Operand::IndirectRegister(Register::DE),
                    Operand::CPURegister(Register::A),
                )
            } else if self.q == 0 && self.p == 2 {
                Instruction::LD(Operand::IndirectImmediate, Operand::CPURegister(Register::HL))
            } else if self.q == 0 && self.p == 3 {
                Instruction::LD(Operand::IndirectImmediate, Operand::CPURegister(Register::A))
            } else if self.q == 1 && self.p == 0 {
                Instruction::LD(
                    Operand::CPURegister(Register::A),
                    Operand::IndirectRegister(Register::BC),
                )
            } else if self.q == 1 && self.p == 1 {
                Instruction::LD(
                    Operand::CPURegister(Register::A),
                    Operand::IndirectRegister(Register::DE),
                )
            } else if self.q == 1 && self.p == 2 {
                Instruction::LD(Operand::CPURegister(Register::HL), Operand::IndirectImmediate)
            } else if self.q == 1 && self.p == 3 {
                Instruction::LD(Operand::CPURegister(Register::A), Operand::IndirectImmediate)
            } else {
                Instruction::Unknown
            }
        } else if self.z == 3 {
            if self.q == 0 {
                Instruction::Inc(Operand::CPURegister(table_rp(self.p)))
            } else if self.q == 1 {
                Instruction::Dec(Operand::CPURegister(table_rp(self.p)))
            } else {
                Instruction::Unknown
            }
        } else if self.z == 4 {
            Instruction::Inc(table_r(self.y))
        } else if self.z == 5 {
            Instruction::Dec(table_r(self.y))
        } else if self.z == 6 {
            Instruction::LD(table_r(self.y), Operand::Immediate8)
        } else if self.z == 7 {
            if self.y == 0 {
                Instruction::RLCA
            } else if self.y == 1 {
                Instruction::RRCA
            } else if self.y == 2 {
                Instruction::RLA
            } else if self.y == 3 {
                Instruction::RRA
            } else if self.y == 4 {
                Instruction::DAA
            } else if self.y == 5 {
                Instruction::CPL
            } else if self.y == 6 {
                Instruction::SCF
            } else if self.y == 7 {
                Instruction::CCF
            } else {
                Instruction::Unknown
            }
        } else {
            Instruction::Unknown
        }
    }

    fn decode_x1(self) -> (inst: Instruction)
        ensures
            inst == spec_decode_x1(self),
    {
        if self.y == 6 && self.z == 6 {
            return Instruction::Halt;
        }
        Instruction::LD(table_r(self.y), table_r(self.z))
    }

    /// Decodes the decomposed fields into an instruction; total, so any
    /// encoding outside the modeled tables yields `Unknown` rather than a
    /// failure.
    pub fn decode(self) -> (inst: Instruction)
        ensures
            inst == spec_decode(self),
    {
        if self.x == 0 {
            self.decode_x0()
        } else if self.x == 1 {
            self.decode_x1()
        } else {
            Instruction::Unknown
        }
    }
}

} // verus!
