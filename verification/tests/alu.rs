use cpu3v2::opcode::{AluBinaryOperation, AluUnaryOperation, ConditionCode};
use cpu3v2::register::WordRegister;
use cpu3v2::system::System;

const ZF: u16 = 1;
const CF: u16 = 2;
const SF: u16 = 4;
const OF: u16 = 8;

fn system() -> System {
    System::new(vec![0xFF]).unwrap()
}

fn flags(s: &System) -> u16 {
    s.get_regw(WordRegister::FL) & 15
}

#[test]
fn add_sets_overflow_and_sign() {
    let mut s = system();
    assert_eq!(s.alu_binaryb(AluBinaryOperation::Add, 0x7F, 0x01), 0x80);
    assert_eq!(flags(&s), SF | OF);
    assert_eq!(s.alu_binaryb(AluBinaryOperation::Add, 0xFF, 0x01), 0x00);
    assert_eq!(flags(&s), ZF | CF);
    assert_eq!(s.alu_binaryw(AluBinaryOperation::Add, 0x1234, 0x1111), 0x2345);
    assert_eq!(flags(&s), 0);
}

#[test]
fn sub_sets_borrow() {
    let mut s = system();
    assert_eq!(s.alu_binaryb(AluBinaryOperation::Sub, 5, 5), 0);
    assert_eq!(flags(&s), ZF);
    assert_eq!(s.alu_binaryb(AluBinaryOperation::Sub, 0, 1), 0xFF);
    assert_eq!(flags(&s), CF | SF);
    assert_eq!(s.alu_binaryw(AluBinaryOperation::Sub, 0x8000, 1), 0x7FFF);
    assert_eq!(flags(&s), OF);
}

#[test]
fn carry_in_for_adc_and_sbb() {
    let mut s = system();
    s.set_regw(WordRegister::FL, CF);
    assert_eq!(s.alu_binaryb(AluBinaryOperation::Adc, 0x10, 0x20), 0x31);
    assert_eq!(flags(&s), 0);
    s.set_regw(WordRegister::FL, CF);
    assert_eq!(s.alu_binaryb(AluBinaryOperation::Sbb, 0x10, 0x10), 0xFF);
    assert_eq!(flags(&s), CF | SF);
    s.set_regw(WordRegister::FL, CF);
    assert_eq!(s.alu_binaryb(AluBinaryOperation::Adc, 0x7F, 0x00), 0x80);
    assert_eq!(flags(&s), SF | OF);
}

#[test]
fn logic_operations_clear_carry_and_overflow() {
    let mut s = system();
    s.set_regw(WordRegister::FL, CF | OF);
    assert_eq!(s.alu_binaryb(AluBinaryOperation::And, 0xF0, 0x3C), 0x30);
    assert_eq!(flags(&s), 0);
    assert_eq!(s.alu_binaryb(AluBinaryOperation::Xor, 0xAA, 0xAA), 0);
    assert_eq!(flags(&s), ZF);
    assert_eq!(s.alu_binaryb(AluBinaryOperation::Bic, 0xFF, 0x0F), 0xF0);
    assert_eq!(flags(&s), SF);
    assert_eq!(s.alu_binaryw(AluBinaryOperation::Or, 0x0F00, 0x00F0), 0x0FF0);
}

#[test]
fn shifts_and_rotates() {
    let mut s = system();
    assert_eq!(s.alu_binaryb(AluBinaryOperation::Shl, 0x81, 1), 0x02);
    assert_eq!(flags(&s), CF);
    assert_eq!(s.alu_binaryb(AluBinaryOperation::Shr, 0x81, 1), 0x40);
    assert_eq!(flags(&s), CF);
    assert_eq!(s.alu_binaryb(AluBinaryOperation::Sar, 0x80, 1), 0xC0);
    assert_eq!(flags(&s), SF);
    assert_eq!(s.alu_binaryb(AluBinaryOperation::Rol, 0x81, 1), 0x03);
    assert_eq!(flags(&s), CF);
    assert_eq!(s.alu_binaryb(AluBinaryOperation::Ror, 0x81, 1), 0xC0);
    assert_eq!(flags(&s), CF | SF);
    assert_eq!(s.alu_binaryw(AluBinaryOperation::Shl, 0x0001, 17), 0x0002);
    assert_eq!(s.alu_binaryb(AluBinaryOperation::Shl, 0x81, 8), 0x81);
    assert_eq!(flags(&s), SF);
    assert_eq!(s.alu_binaryw(AluBinaryOperation::Rol, 0x1234, 4), 0x2341);
}

#[test]
fn unary_operations() {
    let mut s = system();
    assert_eq!(s.alu_unaryb(AluUnaryOperation::Neg, 1), 0xFF);
    assert_eq!(flags(&s), CF | SF);
    assert_eq!(s.alu_unaryb(AluUnaryOperation::Neg, 0x80), 0x80);
    assert_eq!(flags(&s), CF | SF | OF);
    assert_eq!(s.alu_unaryb(AluUnaryOperation::Not, 0x0F), 0xF0);
    assert_eq!(s.alu_unaryb(AluUnaryOperation::Inc, 0x7F), 0x80);
    assert_eq!(flags(&s), SF | OF);
    assert_eq!(s.alu_unaryw(AluUnaryOperation::Dec, 0), 0xFFFF);
    assert_eq!(s.alu_unaryb(AluUnaryOperation::Abs, 0xFB), 5);
    assert_eq!(flags(&s), CF);
    assert_eq!(s.alu_unaryb(AluUnaryOperation::Abs, 0x80), 0x80);
    assert_eq!(s.alu_unaryw(AluUnaryOperation::Sgxt, 0x0080), 0xFF80);
    assert_eq!(s.alu_unaryw(AluUnaryOperation::Sgxt, 0x127F), 0x007F);
    assert_eq!(s.alu_unaryb(AluUnaryOperation::Sgxt, 0x80), 0x80);
    assert_eq!(s.alu_unaryb(AluUnaryOperation::Swap, 0x12), 0x21);
    assert_eq!(s.alu_unaryw(AluUnaryOperation::Swap, 0x1234), 0x3412);
    assert_eq!(s.alu_unaryw(AluUnaryOperation::Popcnt, 0xF00F), 8);
}

#[test]
fn increment_and_decrement_keep_the_carry() {
    let mut s = system();
    s.set_regw(WordRegister::FL, CF);
    assert_eq!(s.alu_unaryb(AluUnaryOperation::Inc, 0xFF), 0);
    assert_eq!(flags(&s), ZF | CF);
    s.set_regw(WordRegister::FL, 0);
    assert_eq!(s.alu_unaryb(AluUnaryOperation::Dec, 0x80), 0x7F);
    assert_eq!(flags(&s), OF);
}

#[test]
fn rotates_through_carry() {
    let mut s = system();
    s.set_regw(WordRegister::FL, CF);
    assert_eq!(s.alu_unaryb(AluUnaryOperation::Rcl, 0x80), 0x01);
    assert_eq!(flags(&s), CF);
    assert_eq!(s.alu_unaryb(AluUnaryOperation::Rcr, 0x01), 0x80);
    assert_eq!(flags(&s), CF | SF);
}

#[test]
fn zero_describes_the_operand() {
    let mut s = system();
    assert_eq!(s.alu_unaryb(AluUnaryOperation::Zero, 0xFF), 0);
    assert_eq!(flags(&s), CF | SF);
    assert_eq!(s.alu_unaryw(AluUnaryOperation::Zero, 0x7FFF), 0);
    assert_eq!(flags(&s), OF);
    assert_eq!(s.alu_unaryb(AluUnaryOperation::Zero, 0), 0);
    assert_eq!(flags(&s), ZF);
}

#[test]
fn alu_keeps_the_upper_flag_bits() {
    let mut s = system();
    s.set_regw(WordRegister::FL, 0x7FF0);
    let _ = s.alu_binaryb(AluBinaryOperation::Sub, 1, 1);
    assert_eq!(s.get_regw(WordRegister::FL), 0x7FF1);
    assert!(!s.is_halted());
}

#[test]
fn conditions_read_the_flags() {
    let mut s = system();
    s.set_regw(WordRegister::FL, ZF);
    assert!(s.condition(ConditionCode::Z));
    assert!(s.condition(ConditionCode::LE));
    assert!(s.condition(ConditionCode::BE));
    assert!(!s.condition(ConditionCode::G));
    assert!(!s.condition(ConditionCode::False));
    assert!(s.condition(ConditionCode::True));
    s.set_regw(WordRegister::FL, SF);
    assert!(s.condition(ConditionCode::L));
    assert!(!s.condition(ConditionCode::GE));
    s.set_regw(WordRegister::FL, SF | OF);
    assert!(s.condition(ConditionCode::GE));
    assert!(s.condition(ConditionCode::G));
}

#[test]
fn a_condition_and_its_negation_disagree() {
    let mut s = system();
    for fl in 0..16u16 {
        s.set_regw(WordRegister::FL, fl);
        for code in 0..16u8 {
            let cc = ConditionCode::try_from(code).unwrap();
            assert_ne!(s.condition(cc), s.condition(!cc));
        }
    }
}
