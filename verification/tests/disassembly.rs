use cpu3v2::disassemble::{format_hex, format_sign_and_digits, format_signed};
use cpu3v2::opcode::{AluBinaryOperation, AluUnaryOperation, ConditionCode, Opcode};
use cpu3v2::register::{ByteRegister, WordRegister};

#[test]
fn numbers() {
    assert_eq!(format_hex(0), "0x0");
    assert_eq!(format_hex(0x7f80), "0x7f80");
    assert_eq!(format_hex(0xFFFF), "0xffff");
    assert_eq!(format_signed(-128), "-128");
    assert_eq!(format_signed(0), "0");
    assert_eq!(format_signed(42), "42");
    assert_eq!(format_sign_and_digits(5), "+5");
    assert_eq!(format_sign_and_digits(0), "+0");
    assert_eq!(format_sign_and_digits(-7), "-7");
}

#[test]
fn moves() {
    assert_eq!(Opcode::MovRIB(ByteRegister::A, 5).disassemble(), "MOV %A, $0x5");
    assert_eq!(Opcode::MovRIW(WordRegister::HA, 0x1234).disassemble(), "MOV %HA, $0x1234");
    assert_eq!(
        Opcode::MovCcRRB(ConditionCode::True, ByteRegister::A, ByteRegister::B).disassemble(),
        "MOV %A, %B"
    );
    assert_eq!(
        Opcode::MovCcRRB(ConditionCode::False, ByteRegister::A, ByteRegister::B).disassemble(),
        "MOV[FALSE] %A, %B"
    );
    assert_eq!(
        Opcode::XchCcRRW(ConditionCode::NZ, WordRegister::BC, WordRegister::SP).disassemble(),
        "XCHNZ %BC, %SP"
    );
    assert_eq!(Opcode::MovRAB(ByteRegister::M, 0x7F80).disassemble(), "MOV %M, 0x7f80");
    assert_eq!(Opcode::MovARW(0x10, WordRegister::R4).disassemble(), "MOV 0x10, %R4");
}

#[test]
fn offsets() {
    assert_eq!(
        Opcode::MovCcROB(ConditionCode::True, ByteRegister::A, -2, WordRegister::HA).disassemble(),
        "MOV %A, -2(%HA)"
    );
    assert_eq!(
        Opcode::LeaCcROW(ConditionCode::C, WordRegister::XL, 16, WordRegister::PC).disassemble(),
        "LEAC %XL, 16(%PC)"
    );
    assert_eq!(
        Opcode::MovCcORW(ConditionCode::GE, 0, WordRegister::SP, WordRegister::MN).disassemble(),
        "MOVGE 0(%SP), %MN"
    );
}

#[test]
fn jumps() {
    assert_eq!(Opcode::JmpCcA(ConditionCode::Z, 0x8000).disassemble(), "JMPZ 0x8000");
    assert_eq!(Opcode::CallCcA(ConditionCode::True, 0x9abc).disassemble(), "CALL 0x9abc");
    assert_eq!(Opcode::JrCcX(ConditionCode::True, 5).disassemble(), "JR +5");
    assert_eq!(Opcode::JrCcX(ConditionCode::LE, -3).disassemble(), "JRLE -3");
}

#[test]
fn alu() {
    assert_eq!(
        Opcode::AlubRRB(AluBinaryOperation::Add, ByteRegister::A, ByteRegister::B).disassemble(),
        "ADD %A, %B"
    );
    assert_eq!(
        Opcode::AlubRIW(AluBinaryOperation::Sar, WordRegister::HA, 0xff).disassemble(),
        "SAR %HA, $0xff"
    );
    assert_eq!(Opcode::AluuRB(AluUnaryOperation::Popcnt, ByteRegister::N).disassemble(), "POPCNT %N");
    assert_eq!(
        Opcode::CpAlubRIB(AluBinaryOperation::Sub, ByteRegister::A, 0x10).disassemble(),
        "CPSUB %A, $0x10"
    );
    assert_eq!(Opcode::CpAluuRW(AluUnaryOperation::Zero, WordRegister::BC).disassemble(), "CPZERO %BC");
}

#[test]
fn stack_bits_and_control() {
    assert_eq!(Opcode::PushRB(ByteRegister::H).disassemble(), "PUSH %H");
    assert_eq!(Opcode::PopRW(WordRegister::PC).disassemble(), "POP %PC");
    assert_eq!(Opcode::ClbRIB(ByteRegister::A, 3).disassemble(), "CLB %A, $3");
    assert_eq!(Opcode::StbRRW(WordRegister::FL, ByteRegister::B).disassemble(), "STB %FL, %B");
    assert_eq!(Opcode::TgbRIW(WordRegister::HA, 15).disassemble(), "TGB %HA, $15");
    assert_eq!(Opcode::TbitRRB(ByteRegister::C, ByteRegister::X).disassemble(), "TBIT %C, %X");
    assert_eq!(Opcode::Nop.disassemble(), "NOP");
    assert_eq!(Opcode::Reti.disassemble(), "RETI");
    assert_eq!(Opcode::Halt.disassemble(), "HALT");
}
