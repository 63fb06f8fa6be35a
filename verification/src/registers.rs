//! The register file: five 16-bit storage slots in which every 8-bit
//! register name resolves to the high or low half of a slot, so that a
//! write through one name is visible through every overlapping name.

use vstd::prelude::*;

verus! {

/// The closed set of architectural register names.
///
/// `B`/`C` alias the high and low halves of `BC` (likewise `D`/`E` of `DE`
/// and `H`/`L` of `HL`); `A` is the high half of `AF`, whose low half holds
/// the flags. `PC` is owned by the fetch/execute cycle, not by the register
/// file.
#[derive(Debug, Clone, Copy, PartialEq, Eq, Structural)]
pub enum Register {
    A,
    B,
    C,
    D,
    E,
    H,
    L,
    AF,
    BC,
    DE,
    HL,
    SP,
    PC,
}

impl Register {
    /// The name denotes one byte of storage.
    pub open spec fn spec_is_byte(self) -> bool {
        self == Register::A || self == Register::B || self == Register::C
            || self == Register::D || self == Register::E || self == Register::H
            || self == Register::L
    }

    /// The name denotes a full 16-bit slot of the register file.
    pub open spec fn spec_is_wide(self) -> bool {
        self == Register::AF || self == Register::BC || self == Register::DE
            || self == Register::HL || self == Register::SP
    }

    /// The 16-bit slot that an 8-bit name is a half of; a wide name is its
    /// own slot.
    pub open spec fn pair(self) -> Register {
        match self {
            Register::A => Register::AF,
            Register::B => Register::BC,
            Register::C => Register::BC,
            Register::D => Register::DE,
            Register::E => Register::DE,
            Register::H => Register::HL,
            Register::L => Register::HL,
            r => r,
        }
    }

    #[verifier::when_used_as_spec(spec_is_byte)]
    pub fn is_byte(self) -> (b: bool)
        ensures
            b == self.spec_is_byte(),
    {
        matches!(
            self,
            Register::A | Register::B | Register::C | Register::D | Register::E | Register::H
                | Register::L
        )
    }

    #[verifier::when_used_as_spec(spec_is_wide)]
    pub fn is_wide(self) -> (b: bool)
        ensures
            b == self.spec_is_wide(),
    {
        matches!(self, Register::AF | Register::BC | Register::DE | Register::HL | Register::SP)
    }
}

/// The high byte of a 16-bit slot.
pub open spec fn hi8(x: u16) -> u8 {
    (x >> 8) as u8
}

/// The low byte of a 16-bit slot.
pub open spec fn lo8(x: u16) -> u8 {
    (x & 0xff) as u8
}

/// The slot with its high byte replaced.
pub open spec fn with_hi8(x: u16, v: u8) -> u16 {
    ((v as u16) << 8) | (x & 0xff)
}

/// The slot with its low byte replaced.
pub open spec fn with_lo8(x: u16, v: u8) -> u16 {
    (x & 0xff00) | (v as u16)
}

proof fn lemma_with_hi8(x: u16, v: u8)
    by (bit_vector)
    ensures
        hi8(with_hi8(x, v)) == v,
        lo8(with_hi8(x, v)) == lo8(x),
{
}

proof fn lemma_with_lo8(x: u16, v: u8)
    by (bit_vector)
    ensures
        lo8(with_lo8(x, v)) == v,
        hi8(with_lo8(x, v)) == hi8(x),
{
}

proof fn lemma_halves_compose(x: u16, h: u8, l: u8)
    by (bit_vector)
    ensures
        with_lo8(with_hi8(x, h), l) == h * 256 + l,
{
}

/// Physical storage: one 16-bit cell per compound register. The 8-bit
/// registers have no cells of their own; they are projections of these.
#[derive(Debug, Clone, Copy, PartialEq, Eq, Structural)]
pub struct RegisterFile {
    pub af: u16,
    pub bc: u16,
    pub de: u16,
    pub hl: u16,
    pub sp: u16,
}

impl RegisterFile {
    /// Every architectural register starts at zero.
    pub fn new() -> (rf: RegisterFile)
        ensures
            rf == (RegisterFile { af: 0, bc: 0, de: 0, hl: 0, sp: 0 }),
    {
        RegisterFile { af: 0, bc: 0, de: 0, hl: 0, sp: 0 }
    }

    /// The byte that an 8-bit register name projects out of its slot.
    pub open spec fn spec_read8(self, r: Register) -> u8 {
        match r {
            Register::A => hi8(self.af),
            Register::B => hi8(self.bc),
            Register::C => lo8(self.bc),
            Register::D => hi8(self.de),
            Register::E => lo8(self.de),
            Register::H => hi8(self.hl),
            Register::L => lo8(self.hl),
            _ => 0,
        }
    }

    /// The file after an 8-bit register is written: only the named half of
    /// the owning slot changes.
    pub open spec fn spec_write8(self, r: Register, v: u8) -> RegisterFile {
        match r {
            Register::A => RegisterFile { af: with_hi8(self.af, v), ..self },
            Register::B => RegisterFile { bc: with_hi8(self.bc, v), ..self },
            Register::C => RegisterFile { bc: with_lo8(self.bc, v), ..self },
            Register::D => RegisterFile { de: with_hi8(self.de, v), ..self },
            Register::E => RegisterFile { de: with_lo8(self.de, v), ..self },
            Register::H => RegisterFile { hl: with_hi8(self.hl, v), ..self },
            Register::L => RegisterFile { hl: with_lo8(self.hl, v), ..self },
            _ => self,
        }
    }

    /// The value of a full 16-bit slot.
    pub open spec fn spec_read16(self, r: Register) -> u16 {
        match r {
            Register::AF => self.af,
            Register::BC => self.bc,
            Register::DE => self.de,
            Register::HL => self.hl,
            Register::SP => self.sp,
            _ => 0,
        }
    }

    /// The file after a full 16-bit slot is written.
    pub open spec fn spec_write16(self, r: Register, v: u16) -> RegisterFile {
        match r {
            Register::AF => RegisterFile { af: v, ..self },
            Register::BC => RegisterFile { bc: v, ..self },
            Register::DE => RegisterFile { de: v, ..self },
            Register::HL => RegisterFile { hl: v, ..self },
            Register::SP => RegisterFile { sp: v, ..self },
            _ => self,
        }
    }

    /// The value of any register name, an 8-bit one widened.
    pub open spec fn spec_value(self, r: Register) -> u16 {
        if r.spec_is_byte() {
            self.spec_read8(r) as u16
        } else {
            self.spec_read16(r)
        }
    }

    /// The file after any register name is written; an 8-bit name takes the
    /// low byte of the value.
    pub open spec fn spec_set(self, r: Register, v: u16) -> RegisterFile {
        if r.spec_is_byte() {
            self.spec_write8(r, v as u8)
        } else {
            self.spec_write16(r, v)
        }
    }

    pub fn read8(&self, r: Register) -> (v: u8)
        requires
            r.is_byte(),
        ensures
            v == self.spec_read8(r),
    {
        match r {
            Register::A => (self.af >> 8) as u8,
            Register::B => (self.bc >> 8) as u8,
            Register::C => (self.bc & 0xff) as u8,
            Register::D => (self.de >> 8) as u8,
            Register::E => (self.de & 0xff) as u8,
            Register::H => (self.hl >> 8) as u8,
            Register::L => (self.hl & 0xff) as u8,
            _ => 0,
        }
    }

    pub fn write8(&mut self, r: Register, v: u8)
        requires
            r.is_byte(),
        ensures
            *final(self) == old(self).spec_write8(r, v),
    {
        match r {
            Register::A => self.af = ((v as u16) << 8) | (self.af & 0xff),
            Register::B => self.bc = ((v as u16) << 8) | (self.bc & 0xff),
            Register::C => self.bc = (self.bc & 0xff00) | (v as u16),
            Register::D => self.de = ((v as u16) << 8) | (self.de & 0xff),
            Register::E => self.de = (self.de & 0xff00) | (v as u16),
            Register::H => self.hl = ((v as u16) << 8) | (self.hl & 0xff),
            Register::L => self.hl = (self.hl & 0xff00) | (v as u16),
            _ => (),
        }
    }

    pub fn read16(&self, r: Register) -> (v: u16)
        requires
            r.is_wide(),
        ensures
            v == self.spec_read16(r),
    {
        match r {
            Register::AF => self.af,
            Register::BC => self.bc,
            Register::DE => self.de,
            Register::HL => self.hl,
            Register::SP => self.sp,
            _ => 0,
        }
    }

    pub fn write16(&mut self, r: Register, v: u16)
        requires
            r.is_wide(),
        ensures
            *final(self) == old(self).spec_write16(r, v),
    {
        match r {
            Register::AF => self.af = v,
            Register::BC => self.bc = v,
            Register::DE => self.de = v,
            Register::HL => self.hl = v,
            Register::SP => self.sp = v,
            _ => (),
        }
    }
}

/// Writing an 8-bit register stores exactly the written byte there and
/// leaves every other 8-bit register, and every 16-bit slot other than the
/// one the written name is a half of, unchanged.
pub proof fn lemma_write8_frame(rf: RegisterFile, r: Register, v: u8)
    requires
        r.spec_is_byte(),
    ensures
        rf.spec_write8(r, v).spec_read8(r) == v,
        forall|o: Register|
            o.spec_is_byte() && o != r ==> rf.spec_write8(r, v).spec_read8(o) == rf.spec_read8(o),
        forall|o: Register|
            o.spec_is_wide() && o != r.pair() ==> rf.spec_write8(r, v).spec_read16(o)
                == rf.spec_read16(o),
{
    match r {
        Register::A => lemma_with_hi8(rf.af, v),
        Register::B => lemma_with_hi8(rf.bc, v),
        Register::C => lemma_with_lo8(rf.bc, v),
        Register::D => lemma_with_hi8(rf.de, v),
        Register::E => lemma_with_lo8(rf.de, v),
        Register::H => lemma_with_hi8(rf.hl, v),
        Register::L => lemma_with_lo8(rf.hl, v),
        _ => (),
    }
}

/// The high half of a pair among `BC`, `DE`, `HL`.
pub open spec fn hi_half(pair: Register) -> Register {
    match pair {
        Register::BC => Register::B,
        Register::DE => Register::D,
        _ => Register::H,
    }
}

/// The low half of a pair among `BC`, `DE`, `HL`.
pub open spec fn lo_half(pair: Register) -> Register {
    match pair {
        Register::BC => Register::C,
        Register::DE => Register::E,
        _ => Register::L,
    }
}

/// Aliasing, halves to pair: after writing the two 8-bit halves of a pair,
/// reading the pair yields their concatenation, high half times 256 plus
/// low half.
pub proof fn lemma_alias_halves_to_pair(rf: RegisterFile, pair: Register, h: u8, l: u8)
    requires
        pair == Register::BC || pair == Register::DE || pair == Register::HL,
    ensures
        rf.spec_write8(hi_half(pair), h).spec_write8(lo_half(pair), l).spec_read16(pair)
            == h * 256 + l,
{
    match pair {
        Register::BC => lemma_halves_compose(rf.bc, h, l),
        Register::DE => lemma_halves_compose(rf.de, h, l),
        _ => lemma_halves_compose(rf.hl, h, l),
    }
}

/// Aliasing, pair to halves: after writing a 16-bit pair, its two 8-bit
/// halves read back as the high and low bytes of the written value.
pub proof fn lemma_alias_pair_to_halves(rf: RegisterFile, pair: Register, v: u16)
    requires
        pair == Register::BC || pair == Register::DE || pair == Register::HL,
    ensures
        rf.spec_write16(pair, v).spec_read8(hi_half(pair)) == hi8(v),
        rf.spec_write16(pair, v).spec_read8(lo_half(pair)) == lo8(v),
{
}

} // verus!
