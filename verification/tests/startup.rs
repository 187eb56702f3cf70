use cpu3v2::register::{ByteRegister, WordRegister};
use cpu3v2::startup::{
    check_ram_execution, system_from_args, CannotInitalizeByteRegisterAndRegisterPair, InitialRegisters,
    RamExecution, StartupError,
};
use cpu3v2::system::{SystemError, MAX_ROM_SIZE};

#[test]
fn initial_values_are_set() {
    let regs = InitialRegisters {
        h: Some(0x12),
        a: Some(0x34),
        bc: Some(0xBEEF),
        l: Some(7),
        sp: Some(0x7000),
        pc: Some(0x9000),
        ..InitialRegisters::default()
    };
    let s = system_from_args(vec![0xFF], &regs).unwrap();
    assert_eq!(s.get_regw(WordRegister::HA), 0x1234);
    assert_eq!(s.get_regb(ByteRegister::B), 0xBE);
    assert_eq!(s.get_regb(ByteRegister::C), 0xEF);
    assert_eq!(s.get_regw(WordRegister::XL), 0x0007);
    assert_eq!(s.get_regw(WordRegister::SP), 0x7000);
    assert_eq!(s.get_regw(WordRegister::PC), 0x9000);
    assert_eq!(s.get_regw(WordRegister::FL), 0);
    assert_eq!(s.get_regw(WordRegister::MN), 0);
}

#[test]
fn a_byte_register_and_its_pair_conflict() {
    let regs = InitialRegisters { ha: Some(1), a: Some(2), ..InitialRegisters::default() };
    let err = system_from_args(vec![0xFF], &regs).err().unwrap();
    let expected = CannotInitalizeByteRegisterAndRegisterPair(ByteRegister::A, WordRegister::HA);
    assert_eq!(err, StartupError::CannotInitalizeByteRegisterAndRegisterPair(expected));
    assert_eq!(
        expected.message(),
        "cannot initialize both the %A byte register and the %HA register pair at the same time"
    );
    let regs = InitialRegisters { mn: Some(1), n: Some(2), m: Some(3), ..InitialRegisters::default() };
    assert_eq!(
        system_from_args(vec![0xFF], &regs).err(),
        Some(StartupError::CannotInitalizeByteRegisterAndRegisterPair(
            CannotInitalizeByteRegisterAndRegisterPair(ByteRegister::M, WordRegister::MN)
        ))
    );
}

#[test]
fn a_large_rom_is_refused_first() {
    let regs = InitialRegisters { ha: Some(1), a: Some(2), ..InitialRegisters::default() };
    assert_eq!(
        system_from_args(vec![0; MAX_ROM_SIZE + 1], &regs).err(),
        Some(StartupError::System(SystemError::RomTooLarge))
    );
}

#[test]
fn execution_from_ram_can_be_forbidden() {
    assert_eq!(check_ram_execution(true, 0x7F00), Err(RamExecution(0x7F00)));
    assert_eq!(check_ram_execution(true, 0x8000), Ok(()));
    assert_eq!(check_ram_execution(false, 0x0000), Ok(()));
    assert_eq!(
        RamExecution(0x7f00).message(),
        "attempt to execute instruction at address 0x7f00 in RAM"
    );
}
