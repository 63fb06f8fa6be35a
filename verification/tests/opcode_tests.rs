use z80_core::decode::{Condition, Instruction, Opcode, Operand};
use z80_core::registers::Register;

use Instruction::{
    Add, ConditionalJR, Dec, Exchange, Halt, Inc, Unknown, CCF, CPL, DAA, DJNZ, JR, LD, NOP, RLA,
    RLCA, RRA, RRCA, SCF,
};
use Operand::{CPURegister, Immediate16, Immediate8, IndirectImmediate, IndirectRegister};
use Register::{A, AF, B, BC, C, D, DE, E, H, HL, L, SP};

fn run_test(rom: &[u8], expected_program: &Vec<Instruction>) {
    let program: Vec<Instruction> = rom.iter().map(|x| Opcode::from_u8(*x).decode()).collect();
    assert_eq!(&program[..], &expected_program[..])
}

#[test]
fn ld() {
    let expected_program = vec![
        LD(CPURegister(A), Immediate8),
        LD(CPURegister(A), CPURegister(B)),
        LD(CPURegister(B), CPURegister(C)),
        LD(CPURegister(C), CPURegister(D)),
        LD(CPURegister(D), CPURegister(E)),
    ];
    run_test(&[0x3E, 0x78, 0x41, 0x4A, 0x53], &expected_program);
}

#[test]
fn inc_dec() {
    let expected_program = vec![
        Inc(CPURegister(A)),
        Inc(CPURegister(B)),
        Dec(CPURegister(A)),
        Dec(CPURegister(B)),
    ];
    run_test(&[0x3C, 0x04, 0x3D, 0x05], &expected_program);
}

#[test]
fn x_table_all_valid() {
    for x in 0..0b00111111 {
        let raw_opcode = Opcode::from_u8(x);
        println!("0x{:x} - {:?}", x, raw_opcode.decode());
        if let Unknown = Opcode::from_u8(x).decode() {
            panic!("Should not be an Uknown opcode in the z=0 table");
        }
    }
}

#[test]
fn decomposition_all_bytes() {
    for b in 0..=255u8 {
        let op = Opcode::from_u8(b);
        assert_eq!(op.x, (b >> 6) & 3);
        assert_eq!(op.y, (b >> 3) & 7);
        assert_eq!(op.z, b & 7);
        assert_eq!(op.p, (b >> 4) & 3);
        assert_eq!(op.q, (b >> 3) & 1);
        assert_eq!(op.y, (op.p << 1) | op.q);
    }
}

#[test]
fn base_tables_have_no_gaps() {
    for b in 0..=0x7Fu8 {
        let inst = Opcode::from_u8(b).decode();
        assert!(
            !matches!(inst, Unknown),
            "byte 0x{:02x} decoded to Unknown inside the modeled tables",
            b
        );
    }
}

#[test]
fn ld_chain_decodes() {
    let expected_program = vec![
        LD(CPURegister(A), CPURegister(B)),
        LD(CPURegister(B), CPURegister(C)),
        LD(CPURegister(C), CPURegister(D)),
        LD(CPURegister(D), CPURegister(E)),
    ];
    run_test(&[0x78, 0x41, 0x4A, 0x53], &expected_program);
}

#[test]
fn z0_family_decodes() {
    let expected_program = vec![
        NOP,
        Exchange(CPURegister(AF), CPURegister(AF)),
        DJNZ,
        JR(Immediate8),
        ConditionalJR(Condition::NotZero, Immediate8),
        ConditionalJR(Condition::Zero, Immediate8),
        ConditionalJR(Condition::NoCarry, Immediate8),
        ConditionalJR(Condition::Carry, Immediate8),
    ];
    run_test(
        &[0x00, 0x08, 0x10, 0x18, 0x20, 0x28, 0x30, 0x38],
        &expected_program,
    );
}

#[test]
fn z1_family_decodes() {
    let expected_program = vec![
        LD(CPURegister(BC), Immediate16),
        LD(CPURegister(DE), Immediate16),
        LD(CPURegister(HL), Immediate16),
        LD(CPURegister(SP), Immediate16),
        Add(CPURegister(HL), CPURegister(BC)),
        Add(CPURegister(HL), CPURegister(DE)),
        Add(CPURegister(HL), CPURegister(HL)),
        Add(CPURegister(HL), CPURegister(SP)),
    ];
    run_test(
        &[0x01, 0x11, 0x21, 0x31, 0x09, 0x19, 0x29, 0x39],
        &expected_program,
    );
}

#[test]
fn z2_family_decodes() {
    let expected_program = vec![
        LD(IndirectRegister(BC), CPURegister(A)),
        LD(IndirectRegister(DE), CPURegister(A)),
        LD(IndirectImmediate, CPURegister(HL)),
        LD(IndirectImmediate, CPURegister(A)),
        LD(CPURegister(A), IndirectRegister(BC)),
        LD(CPURegister(A), IndirectRegister(DE)),
        LD(CPURegister(HL), IndirectImmediate),
        LD(CPURegister(A), IndirectImmediate),
    ];
    run_test(
        &[0x02, 0x12, 0x22, 0x32, 0x0A, 0x1A, 0x2A, 0x3A],
        &expected_program,
    );
}

#[test]
fn z3_family_decodes() {
    let expected_program = vec![
        Inc(CPURegister(BC)),
        Inc(CPURegister(DE)),
        Inc(CPURegister(HL)),
        Inc(CPURegister(SP)),
        Dec(CPURegister(BC)),
        Dec(CPURegister(DE)),
        Dec(CPURegister(HL)),
        Dec(CPURegister(SP)),
    ];
    run_test(
        &[0x03, 0x13, 0x23, 0x33, 0x0B, 0x1B, 0x2B, 0x3B],
        &expected_program,
    );
}

#[test]
fn z4_z5_z6_families_decode() {
    let expected_program = vec![
        Inc(CPURegister(B)),
        Inc(IndirectRegister(HL)),
        Dec(CPURegister(B)),
        Dec(IndirectRegister(HL)),
        LD(CPURegister(B), Immediate8),
        LD(IndirectRegister(HL), Immediate8),
        LD(CPURegister(A), Immediate8),
    ];
    run_test(
        &[0x04, 0x34, 0x05, 0x35, 0x06, 0x36, 0x3E],
        &expected_program,
    );
}

#[test]
fn z7_family_decodes() {
    let expected_program = vec![RLCA, RRCA, RLA, RRA, DAA, CPL, SCF, CCF];
    run_test(
        &[0x07, 0x0F, 0x17, 0x1F, 0x27, 0x2F, 0x37, 0x3F],
        &expected_program,
    );
}

#[test]
fn halt_is_the_sole_doubled_slot() {
    let expected_program = vec![
        Halt,
        LD(IndirectRegister(HL), CPURegister(B)),
        LD(CPURegister(B), IndirectRegister(HL)),
    ];
    run_test(&[0x76, 0x70, 0x46], &expected_program);
}

#[test]
fn x2_and_x3_decode_to_unknown() {
    for b in [0x80u8, 0xA5, 0xC0, 0xFF] {
        assert_eq!(Opcode::from_u8(b).decode(), Unknown);
    }
}
