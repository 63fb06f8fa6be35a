use z80_core::cpu::{ExecError, CPU};
use z80_core::decode::{Instruction, Operand};
use z80_core::registers::Register;

#[test]
fn get_register_for_cpu() {
    let mut cpu = CPU::new(Vec::new());
    cpu.set_register(Register::A, 123);
    assert_eq!(123, cpu.get_register(Register::A));
}

#[test]
fn new_seeds_every_register_to_zero() {
    let cpu = CPU::new(vec![1, 2, 3]);
    assert_eq!(cpu.pc, 0);
    for reg in [
        Register::A,
        Register::B,
        Register::C,
        Register::D,
        Register::E,
        Register::H,
        Register::L,
        Register::AF,
        Register::BC,
        Register::DE,
        Register::HL,
        Register::SP,
    ] {
        assert_eq!(0, cpu.get_register(reg));
    }
}

#[test]
fn aliasing_halves_compose_into_pair() {
    let mut cpu = CPU::new(Vec::new());
    cpu.set_register(Register::B, 0x12);
    cpu.set_register(Register::C, 0x34);
    assert_eq!(0x1234, cpu.get_register(Register::BC));

    cpu.set_register(Register::H, 0xFE);
    cpu.set_register(Register::L, 0x01);
    assert_eq!(0xFE01, cpu.get_register(Register::HL));
}

#[test]
fn aliasing_pair_splits_into_halves() {
    let mut cpu = CPU::new(Vec::new());
    cpu.set_register(Register::BC, 0xABCD);
    assert_eq!(0xAB, cpu.get_register(Register::B));
    assert_eq!(0xCD, cpu.get_register(Register::C));

    cpu.set_register(Register::DE, 0x0102);
    assert_eq!(0x01, cpu.get_register(Register::D));
    assert_eq!(0x02, cpu.get_register(Register::E));
}

#[test]
fn fetch_peeks_and_fetch_u8_advances() {
    let mut cpu = CPU::new(vec![5, 6]);
    assert_eq!(5, cpu.fetch());
    assert_eq!(5, cpu.fetch());
    assert_eq!(5, cpu.fetch_u8());
    assert_eq!(6, cpu.fetch());
    assert_eq!(6, cpu.fetch_u8());
    assert_eq!(cpu.pc, 2);
}

const REGISTER_TABLE_8_BIT: [Register; 8] = [
    Register::B,
    Register::C,
    Register::D,
    Register::E,
    Register::H,
    Register::L,
    Register::HL, // placeholder: index 6 decodes to HL-indirect, never executed here
    Register::A,
];

#[test]
fn ld_register_round_trip_all_pairs() {
    for y in 0..8u8 {
        for z in 0..8u8 {
            if y == 6 || z == 6 {
                continue;
            }
            let opcode = 0x40 | (y << 3) | z;
            let mut cpu = CPU::new(vec![opcode]);
            for (i, reg) in REGISTER_TABLE_8_BIT.iter().enumerate() {
                if i != 6 {
                    cpu.set_register(*reg, 0x10 + i as u16);
                }
            }
            let dst = REGISTER_TABLE_8_BIT[y as usize];
            let src = REGISTER_TABLE_8_BIT[z as usize];
            let src_value = cpu.get_register(src);
            let stepped = cpu.step();
            assert_eq!(
                stepped,
                Ok(Instruction::LD(
                    Operand::CPURegister(dst),
                    Operand::CPURegister(src)
                ))
            );
            assert_eq!(cpu.pc, 1);
            assert_eq!(src_value, cpu.get_register(dst));
            for (i, reg) in REGISTER_TABLE_8_BIT.iter().enumerate() {
                if i != 6 && *reg != dst {
                    assert_eq!(0x10 + i as u16, cpu.get_register(*reg));
                }
            }
        }
    }
}

#[test]
fn one_byte_instruction_advances_pc_by_one() {
    let mut cpu = CPU::new(vec![0x78]);
    assert!(cpu.step().is_ok());
    assert_eq!(cpu.pc, 1);
}

#[test]
fn immediate8_instruction_advances_pc_by_two() {
    let mut cpu = CPU::new(vec![0x3E, 0x07]);
    assert!(cpu.step().is_ok());
    assert_eq!(cpu.pc, 2);
    assert_eq!(0x07, cpu.get_register(Register::A));
}

#[test]
fn immediate16_instruction_advances_pc_by_three() {
    let mut cpu = CPU::new(vec![0x01, 0x34, 0x12]);
    assert!(cpu.step().is_ok());
    assert_eq!(cpu.pc, 3);
    assert_eq!(0x1234, cpu.get_register(Register::BC));
}

#[test]
fn run_ld_chain_leaves_both_registers_loaded() {
    let mut cpu = CPU::new(vec![0x3E, 0x07, 0x47]);
    assert_eq!(Ok(()), cpu.run());
    assert_eq!(7, cpu.get_register(Register::A));
    assert_eq!(7, cpu.get_register(Register::B));
    assert_eq!(cpu.pc, 3);
}

#[test]
fn unimplemented_instruction_is_fatal_not_skipped() {
    let mut cpu = CPU::new(vec![0x00]);
    assert_eq!(Err(ExecError::UnimplementedInstruction), cpu.step());
    assert_eq!(cpu.pc, 0);

    let mut cpu = CPU::new(vec![0x76]);
    assert_eq!(Err(ExecError::UnimplementedInstruction), cpu.step());
}

#[test]
fn fetch_past_the_end_reports_bounds() {
    let mut cpu = CPU::new(Vec::new());
    assert_eq!(Err(ExecError::ProgramBoundsExceeded), cpu.step());

    // An 8-bit immediate load whose operand byte lies past the end.
    let mut cpu = CPU::new(vec![0x3E]);
    assert_eq!(Err(ExecError::ProgramBoundsExceeded), cpu.step());
    assert_eq!(cpu.pc, 0);

    // A 16-bit immediate load with only one of its two operand bytes.
    let mut cpu = CPU::new(vec![0x01, 0x34]);
    assert_eq!(Err(ExecError::ProgramBoundsExceeded), cpu.step());
}

#[test]
fn run_stops_on_the_first_unimplemented_instruction() {
    let mut cpu = CPU::new(vec![0x3E, 0x07, 0x00]);
    assert_eq!(Err(ExecError::UnimplementedInstruction), cpu.run());
    assert_eq!(7, cpu.get_register(Register::A));
}

#[test]
fn execute_rejects_wide_register_copies() {
    let inst = Instruction::LD(
        Operand::CPURegister(Register::BC),
        Operand::CPURegister(Register::DE),
    );
    let mut cpu = CPU::new(vec![0x00]);
    assert_eq!(Err(ExecError::UnimplementedInstruction), inst.execute(&mut cpu));
}

#[test]
fn execute_applies_an_immediate_load_in_place() {
    let mut cpu = CPU::new(vec![0x0E, 0x2A]);
    let opcode = cpu.fetch();
    let inst = cpu.decode(opcode);
    assert_eq!(
        inst,
        Instruction::LD(Operand::CPURegister(Register::C), Operand::Immediate8)
    );
    assert_eq!(Ok(()), inst.execute(&mut cpu));
    assert_eq!(0x2A, cpu.get_register(Register::C));
    assert_eq!(cpu.pc, 2);
}
