use gb_core::cpu::instruction::{Handler, Instruction, Step};
use gb_core::cpu::registers::{displace, make_word, split_word, Reg16, Reg8};
use gb_core::cpu::{step_word, CPU};

const ALL8: [Reg8; 8] = [
    Reg8::A,
    Reg8::B,
    Reg8::C,
    Reg8::D,
    Reg8::E,
    Reg8::F,
    Reg8::H,
    Reg8::L,
];

const PAIRS: [(Reg16, Reg8, Reg8); 4] = [
    (Reg16::AF, Reg8::A, Reg8::F),
    (Reg16::BC, Reg8::B, Reg8::C),
    (Reg16::DE, Reg8::D, Reg8::E),
    (Reg16::HL, Reg8::H, Reg8::L),
];

#[test]
fn registers_start_at_zero() {
    let cpu = CPU::new();
    for r in ALL8 {
        assert_eq!(cpu.get_register_value_u8(r), 0);
    }
    for (p, _, _) in PAIRS {
        assert_eq!(cpu.get_register_value_u16(p), 0);
    }
    assert_eq!(cpu.get_register_value_u16(Reg16::SP), 0);
    assert_eq!(cpu.sp(), 0);
    assert_eq!(cpu.pc(), 0);
    assert_eq!(cpu.cycles(), 0);
    assert!(!cpu.is_halted());
}

#[test]
fn set8_then_get8_round_trips_for_every_register_and_value() {
    for r in ALL8 {
        let mut cpu = CPU::new();
        for v in 0..=255u8 {
            cpu.set_register_value_u8(r, v);
            assert_eq!(cpu.get_register_value_u8(r), v);
            for other in ALL8 {
                if other != r {
                    assert_eq!(cpu.get_register_value_u8(other), 0);
                }
            }
        }
        assert_eq!(cpu.sp(), 0);
        assert_eq!(cpu.pc(), 0);
    }
}

#[test]
fn set16_then_get16_round_trips_for_every_pair() {
    for (p, _, _) in PAIRS {
        let mut cpu = CPU::new();
        for v in [0u16, 1, 0x00FF, 0x0100, 0x1234, 0x8000, 0xBEEF, 0xFFFF] {
            cpu.set_register_value_u16(p, v);
            assert_eq!(cpu.get_register_value_u16(p), v);
        }
    }
}

#[test]
fn set16_round_trips_over_all_words_for_hl() {
    let mut cpu = CPU::new();
    for v in 0..=0xFFFFu16 {
        cpu.set_register_value_u16(Reg16::HL, v);
        assert_eq!(cpu.get_register_value_u16(Reg16::HL), v);
    }
}

#[test]
fn pair_has_first_register_high_and_second_low() {
    for (p, high, low) in PAIRS {
        let mut cpu = CPU::new();
        cpu.set_register_value_u8(high, 0x12);
        cpu.set_register_value_u8(low, 0x34);
        assert_eq!(cpu.get_register_value_u16(p), 0x1234);
    }
}

#[test]
fn set16_writes_both_halves() {
    for (p, high, low) in PAIRS {
        let mut cpu = CPU::new();
        cpu.set_register_value_u16(p, 0xBEEF);
        assert_eq!(cpu.get_register_value_u8(high), 0xBE);
        assert_eq!(cpu.get_register_value_u8(low), 0xEF);
        for other in ALL8 {
            if other != high && other != low {
                assert_eq!(cpu.get_register_value_u8(other), 0);
            }
        }
    }
}

#[test]
fn reading_a_pair_and_writing_it_back_changes_nothing() {
    for (p, high, low) in PAIRS {
        let mut cpu = CPU::new();
        cpu.set_register_value_u8(high, 0xA5);
        cpu.set_register_value_u8(low, 0x5A);
        let before = cpu.registers_to_string();
        let v = cpu.get_register_value_u16(p);
        cpu.set_register_value_u16(p, v);
        assert_eq!(cpu.registers_to_string(), before);
    }
}

#[test]
fn stack_pointer_is_a_cell_of_its_own() {
    let mut cpu = CPU::new();
    cpu.set_register_value_u16(Reg16::SP, 0xFFFE);
    assert_eq!(cpu.get_register_value_u16(Reg16::SP), 0xFFFE);
    assert_eq!(cpu.sp(), 0xFFFE);
    for r in ALL8 {
        assert_eq!(cpu.get_register_value_u8(r), 0);
    }
}

#[test]
fn words_pack_and_split() {
    assert_eq!(make_word(0x12, 0x34), 0x1234);
    assert_eq!(make_word(0xFF, 0x00), 0xFF00);
    assert_eq!(make_word(0x00, 0xFF), 0x00FF);
    assert_eq!(make_word(0xFF, 0xFF), 0xFFFF);
    assert_eq!(split_word(0x1234), (0x12, 0x34));
    assert_eq!(split_word(0x00FF), (0x00, 0xFF));
    assert_eq!(split_word(0xFF00), (0xFF, 0x00));
}

#[test]
fn displacement_is_signed_and_wraps() {
    assert_eq!(displace(0x1000, 0x00), 0x1000);
    assert_eq!(displace(0x1000, 0x7F), 0x107F);
    assert_eq!(displace(0x1000, 0x80), 0x0F80);
    assert_eq!(displace(0x1000, 0xFF), 0x0FFF);
    assert_eq!(displace(0xFFFF, 0x01), 0x0000);
    assert_eq!(displace(0x0000, 0xFF), 0xFFFF);
    assert_eq!(displace(0x0000, 0x80), 0xFF80);
}

#[test]
fn stepping_wraps() {
    assert_eq!(step_word(0x1234, Step::Increment), 0x1235);
    assert_eq!(step_word(0x1234, Step::Decrement), 0x1233);
    assert_eq!(step_word(0xFFFF, Step::Increment), 0x0000);
    assert_eq!(step_word(0x0000, Step::Decrement), 0xFFFF);
}

#[test]
fn operand_counts() {
    assert_eq!(Handler::LoadImmediate(Reg8::B).operand_count(), 1);
    assert_eq!(Handler::StoreImmediate.operand_count(), 1);
    assert_eq!(Handler::LoadHighImmediate.operand_count(), 1);
    assert_eq!(Handler::StoreHighImmediate.operand_count(), 1);
    assert_eq!(Handler::LoadHlFromSpOffset.operand_count(), 1);
    assert_eq!(Handler::LoadAbsolute.operand_count(), 2);
    assert_eq!(Handler::StoreAbsolute.operand_count(), 2);
    assert_eq!(Handler::LoadImmediateWord(Reg16::BC).operand_count(), 2);
    assert_eq!(Handler::StoreSp.operand_count(), 2);
    assert_eq!(Handler::Move(Reg8::A, Reg8::B).operand_count(), 0);
    assert_eq!(Handler::LoadIndirect(Reg8::A, Reg16::HL).operand_count(), 0);
    assert_eq!(Handler::StoreIndirect(Reg16::HL, Reg8::A).operand_count(), 0);
    assert_eq!(Handler::LoadHighC.operand_count(), 0);
    assert_eq!(Handler::StoreHighC.operand_count(), 0);
    assert_eq!(Handler::LoadStepping(Step::Increment).operand_count(), 0);
    assert_eq!(Handler::StoreStepping(Step::Decrement).operand_count(), 0);
    assert_eq!(Handler::MoveHlToSp.operand_count(), 0);
    assert_eq!(Handler::Push(Reg16::AF).operand_count(), 0);
    assert_eq!(Handler::Pop(Reg16::AF).operand_count(), 0);
    assert_eq!(Handler::Halt.operand_count(), 0);
}

#[test]
fn instruction_record_keeps_what_it_was_built_from() {
    let ins = Instruction::new(0x06, 8, "LD B, n", Handler::LoadImmediate(Reg8::B));
    assert_eq!(ins.op_code, 0x06);
    assert_eq!(ins.cycles, 8);
    assert_eq!(ins.operands, 1);
    assert_eq!(ins.mnemonic, "LD B, n");
    assert_eq!(ins.execute, Handler::LoadImmediate(Reg8::B));
    let ins = Instruction::new(0xFA, 16, "LD A, (nn)", Handler::LoadAbsolute);
    assert_eq!(ins.operands, 2);
    let ins = Instruction::new(0x76, 4, "HALT", Handler::Halt);
    assert_eq!(ins.operands, 0);
}

#[test]
fn register_dump_lists_every_register() {
    let mut cpu = CPU::new();
    cpu.set_register_value_u8(Reg8::A, 1);
    cpu.set_register_value_u8(Reg8::B, 2);
    cpu.set_register_value_u8(Reg8::C, 3);
    cpu.set_register_value_u8(Reg8::D, 4);
    cpu.set_register_value_u8(Reg8::E, 5);
    cpu.set_register_value_u8(Reg8::F, 6);
    cpu.set_register_value_u8(Reg8::H, 7);
    cpu.set_register_value_u8(Reg8::L, 255);
    cpu.set_register_value_u16(Reg16::SP, 65534);
    assert_eq!(
        cpu.registers_to_string(),
        "Registers state:\n(a: 1) (b: 2) (c: 3) (d: 4)\n(e: 5) (f: 6) (h: 7) (l: 255)\n(sp: 65534) (pc: 0)"
    );
}

#[test]
fn engine_dump_is_the_register_dump_behind_a_tag() {
    let mut cpu = CPU::new();
    cpu.set_register_value_u16(Reg16::DE, 0x0102);
    let expected = format!("CPU | {}", cpu.registers_to_string());
    assert_eq!(cpu.to_string(), expected);
    assert!(cpu.to_string().starts_with("CPU | Registers state:\n(a: 0) (b: 0) (c: 0) (d: 1)\n(e: 2)"));
}
