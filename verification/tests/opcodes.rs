use cpu3v2::opcode::{AluBinaryOperation, AluUnaryOperation, ConditionCode, InvalidOpcodeError, Opcode};
use cpu3v2::register::{ByteRegister, WordRegister};

fn samples() -> Vec<Opcode> {
    vec![
        Opcode::MovRIB(ByteRegister::A, 0x05),
        Opcode::MovRIW(WordRegister::HA, 0x1234),
        Opcode::MovCcRRB(ConditionCode::Z, ByteRegister::B, ByteRegister::C),
        Opcode::XchCcRRW(ConditionCode::True, WordRegister::BC, WordRegister::XL),
        Opcode::MovRAB(ByteRegister::M, 0x7F80),
        Opcode::MovCcROW(ConditionCode::NC, WordRegister::MN, -3, WordRegister::SP),
        Opcode::LeaCcROB(ConditionCode::G, ByteRegister::N, 127, WordRegister::PC),
        Opcode::JmpCcA(ConditionCode::NZ, 0x8000),
        Opcode::CallCcA(ConditionCode::True, 0x9ABC),
        Opcode::MovARW(0x1000, WordRegister::R4),
        Opcode::MovCcORB(ConditionCode::S, -128, WordRegister::HA, ByteRegister::X),
        Opcode::AlubRRB(AluBinaryOperation::Add, ByteRegister::A, ByteRegister::B),
        Opcode::AlubRIW(AluBinaryOperation::Ror, WordRegister::HA, 0xBEEF),
        Opcode::AluuRB(AluUnaryOperation::Popcnt, ByteRegister::H),
        Opcode::CpAlubRIB(AluBinaryOperation::Sub, ByteRegister::A, 0x10),
        Opcode::CpAluuRW(AluUnaryOperation::Zero, WordRegister::BC),
        Opcode::JrCcX(ConditionCode::L, -2),
        Opcode::PushRW(WordRegister::PC),
        Opcode::PopRB(ByteRegister::C),
        Opcode::ClbRIW(WordRegister::FL, 15),
        Opcode::StbRRB(ByteRegister::A, ByteRegister::B),
        Opcode::TgbRIB(ByteRegister::L, 7),
        Opcode::TbitRRW(WordRegister::SP, ByteRegister::N),
        Opcode::Nop,
        Opcode::Reti,
        Opcode::Halt,
    ]
}

#[test]
fn encodings_follow_the_instruction_table() {
    assert_eq!(Opcode::MovRIB(ByteRegister::A, 0x05).to_vec(), vec![0x01, 0x05]);
    assert_eq!(Opcode::MovRIW(WordRegister::HA, 0x1234).to_vec(), vec![0x08, 0x12, 0x34]);
    assert_eq!(
        Opcode::AlubRRB(AluBinaryOperation::Add, ByteRegister::A, ByteRegister::B).to_vec(),
        vec![0x81, 0x50]
    );
    assert_eq!(
        Opcode::CpAlubRIB(AluBinaryOperation::Sub, ByteRegister::A, 0x10).to_vec(),
        vec![0x91, 0x01, 0x10]
    );
    assert_eq!(Opcode::MovARB(0x7F80, ByteRegister::A).to_vec(), vec![0x61, 0x7F, 0x80]);
    assert_eq!(Opcode::JrCcX(ConditionCode::True, -2).to_vec(), vec![0xAF, 0xFE]);
    assert_eq!(Opcode::PushRB(ByteRegister::A).to_vec(), vec![0xC1]);
    assert_eq!(Opcode::PopRW(WordRegister::PC).to_vec(), vec![0xDF]);
    assert_eq!(Opcode::Reti.to_vec(), vec![0xF1]);
    assert_eq!(Opcode::Halt.to_vec(), vec![0xFF]);
}

#[test]
fn decoding_an_encoding_gives_the_instruction_back() {
    for op in samples() {
        let bytes = op.to_vec();
        assert!(!bytes.is_empty() && bytes.len() <= 4);
        assert_eq!(Opcode::from_slice(&bytes), Ok(op));
        let mut longer = bytes.clone();
        longer.extend_from_slice(&[0xAA, 0xBB, 0xCC]);
        assert_eq!(Opcode::from_slice(&longer), Ok(op));
    }
}

#[test]
fn bit_numbers_are_masked_in_the_encoding() {
    assert_eq!(Opcode::StbRIB(ByteRegister::H, 17).to_vec(), Opcode::StbRIB(ByteRegister::H, 1).to_vec());
}

#[test]
fn decoding_reports_undefined_instructions() {
    assert_eq!(Opcode::from_slice(&[]), Err(InvalidOpcodeError::UndefinedOpcode));
    assert_eq!(Opcode::from_slice(&[0xB0, 0x00]), Err(InvalidOpcodeError::UndefinedOpcode));
    assert_eq!(Opcode::from_slice(&[0xF5]), Err(InvalidOpcodeError::UndefinedOpcode));
    assert_eq!(Opcode::from_slice(&[0x08, 0x12]), Err(InvalidOpcodeError::UndefinedOpcode));
    assert_eq!(Opcode::from_slice(&[0x81, 0x5A]), Err(InvalidOpcodeError::UndefinedOpcode));
    assert_eq!(Opcode::from_slice(&[0x81]), Err(InvalidOpcodeError::UndefinedOpcode));
}

#[test]
fn reserved_alu_codes_are_refused() {
    assert!(AluBinaryOperation::try_from(10u8).is_err());
    assert_eq!(AluBinaryOperation::try_from(11u8), Ok(AluBinaryOperation::Sar));
    assert_eq!(AluBinaryOperation::try_from(13u8), Ok(AluBinaryOperation::Ror));
    assert!(AluUnaryOperation::try_from(10u8).is_err());
    assert_eq!(AluUnaryOperation::try_from(15u8), Ok(AluUnaryOperation::Zero));
    assert_eq!(ConditionCode::try_from(15u8), Ok(ConditionCode::True));
    assert_eq!(ConditionCode::try_from(16u8), Err(InvalidOpcodeError::UndefinedConditionCode));
    assert_eq!(AluBinaryOperation::try_from(14u8), Err(InvalidOpcodeError::UndefinedOpcode));
    assert_eq!(ByteRegister::try_from(8u8), Err(InvalidOpcodeError::UndefinedByteRegister));
    assert_eq!(WordRegister::try_from(8u8), Err(InvalidOpcodeError::UndefinedWordRegister));
    assert_eq!(ByteRegister::try_from(7u8), Ok(ByteRegister::N));
}

#[test]
fn condition_codes_negate_in_pairs() {
    assert_eq!(ConditionCode::Z.negate(), ConditionCode::NZ);
    assert_eq!(!ConditionCode::LE, ConditionCode::G);
    assert_eq!(!ConditionCode::True, ConditionCode::False);
    for code in 0..16u8 {
        let cc = ConditionCode::try_from(code).unwrap();
        assert_eq!(!!cc, cc);
        assert_eq!((!cc).code(), (code + 8) % 16);
    }
    assert_eq!(ConditionCode::default(), ConditionCode::True);
}

#[test]
fn opcode_error_messages() {
    assert_eq!(InvalidOpcodeError::UndefinedOpcode.message(), "undefined opcode");
    assert_eq!(InvalidOpcodeError::UndefinedByteRegister.message(), "undefined byte register");
    assert_eq!(InvalidOpcodeError::UndefinedWordRegister.message(), "undefined word register");
    assert_eq!(InvalidOpcodeError::UndefinedConditionCode.message(), "undefined condition code");
}
