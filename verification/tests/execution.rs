use cpu3v2::opcode::{AluBinaryOperation, ConditionCode, Opcode};
use cpu3v2::register::{ByteRegister, WordRegister};
use cpu3v2::system::gpu::VBLANK_INTERVAL;
use cpu3v2::system::{System, SystemError, SystemStep, PC_START, SP_START};

fn program(ops: &[Opcode]) -> Vec<u8> {
    let mut rom = Vec::new();
    for op in ops {
        rom.extend(op.to_vec());
    }
    rom
}

fn run_until_halt(s: &mut System) {
    for _ in 0..1000 {
        match s.step() {
            Ok(_) => {}
            Err(SystemError::Halted) => return,
            Err(e) => panic!("unexpected error {e:?}"),
        }
    }
    panic!("program did not halt");
}

#[test]
fn a_fresh_system_starts_at_the_rom() {
    let s = System::new(vec![0xFF]).unwrap();
    assert_eq!(s.get_regw(WordRegister::PC), PC_START);
    assert_eq!(s.get_regw(WordRegister::SP), SP_START);
    assert_eq!(s.get_regw(WordRegister::FL), 0);
    assert_eq!(s.cycles(), 0);
    assert!(!s.is_halted());
}

#[test]
fn immediate_moves_and_addition() {
    let rom = program(&[
        Opcode::MovRIB(ByteRegister::A, 5),
        Opcode::MovRIB(ByteRegister::B, 7),
        Opcode::AlubRRB(AluBinaryOperation::Add, ByteRegister::A, ByteRegister::B),
        Opcode::Halt,
    ]);
    let mut s = System::new(rom).unwrap();
    assert_eq!(s.step(), Ok(SystemStep::RanInstruction(Opcode::MovRIB(ByteRegister::A, 5))));
    assert_eq!(s.get_regb(ByteRegister::A), 5);
    assert_eq!(s.get_regw(WordRegister::PC), 0x8002);
    assert_eq!(s.cycles(), 3);
    run_until_halt(&mut s);
    assert_eq!(s.get_regb(ByteRegister::A), 12);
    assert_eq!(s.get_regb(ByteRegister::B), 7);
    assert!(s.is_halted());
    assert_eq!(s.cycles(), 3 + 3 + 3 + 2);
}

#[test]
fn a_halted_system_refuses_to_step() {
    let mut s = System::new(vec![0xFF]).unwrap();
    assert_eq!(s.step(), Ok(SystemStep::RanInstruction(Opcode::Halt)));
    let before = s.clone();
    assert_eq!(s.step(), Err(SystemError::Halted));
    assert_eq!(s, before);
}

#[test]
fn conditional_jumps_take_an_extra_cycle() {
    let rom = program(&[
        Opcode::CpAlubRIB(AluBinaryOperation::Sub, ByteRegister::A, 0),
        Opcode::JmpCcA(ConditionCode::Z, 0x8008),
        Opcode::MovRIB(ByteRegister::B, 1),
        Opcode::Halt,
    ]);
    let mut s = System::new(rom).unwrap();
    s.step().unwrap();
    assert_eq!(s.cycles(), 4);
    s.step().unwrap();
    assert_eq!(s.get_regw(WordRegister::PC), 0x8008);
    assert_eq!(s.cycles(), 4 + 5);
    run_until_halt(&mut s);
    assert_eq!(s.get_regb(ByteRegister::B), 0);
}

#[test]
fn an_untaken_condition_only_takes_cycles() {
    let mut s = System::new(vec![0xFF]).unwrap();
    s.set_regw(WordRegister::FL, 1);
    s.set_regb(ByteRegister::B, 9);
    let mut expected = s.clone();
    s.run_instruction(Opcode::MovCcRRB(ConditionCode::NZ, ByteRegister::A, ByteRegister::B)).unwrap();
    assert_eq!(s.cycles(), 3);
    s.run_instruction(Opcode::JmpCcA(ConditionCode::False, 0x1234)).unwrap();
    assert_eq!(s.cycles(), 3 + 4);
    *expected.cycles_mut() = 7;
    assert_eq!(s, expected);
}

#[test]
fn relative_jumps_move_from_the_next_instruction() {
    let rom = program(&[
        Opcode::JrCcX(ConditionCode::True, 2),
        Opcode::MovRIB(ByteRegister::A, 1),
        Opcode::MovRIB(ByteRegister::B, 2),
        Opcode::Halt,
    ]);
    let mut s = System::new(rom).unwrap();
    s.step().unwrap();
    assert_eq!(s.get_regw(WordRegister::PC), 0x8004);
    run_until_halt(&mut s);
    assert_eq!(s.get_regb(ByteRegister::A), 0);
    assert_eq!(s.get_regb(ByteRegister::B), 2);
}

#[test]
fn call_and_return() {
    let rom = program(&[
        Opcode::CallCcA(ConditionCode::True, 0x8004),
        Opcode::Halt,
        Opcode::MovRIB(ByteRegister::A, 9),
        Opcode::PopRW(WordRegister::PC),
    ]);
    let mut s = System::new(rom).unwrap();
    s.step().unwrap();
    assert_eq!(s.get_regw(WordRegister::PC), 0x8004);
    assert_eq!(s.get_regw(WordRegister::SP), SP_START - 2);
    assert_eq!(s.get_memw(SP_START - 2), Ok(0x8003));
    run_until_halt(&mut s);
    assert_eq!(s.get_regb(ByteRegister::A), 9);
    assert_eq!(s.get_regw(WordRegister::SP), SP_START);
    assert_eq!(s.get_regw(WordRegister::PC), 0x8004);
}

#[test]
fn push_then_pop_restores_the_value_and_sp() {
    let mut s = System::new(vec![0xFF]).unwrap();
    s.set_regw(WordRegister::BC, 0xBEEF);
    s.run_instruction(Opcode::PushRW(WordRegister::BC)).unwrap();
    assert_eq!(s.get_regw(WordRegister::SP), SP_START - 2);
    s.run_instruction(Opcode::PopRW(WordRegister::XL)).unwrap();
    assert_eq!(s.get_regw(WordRegister::XL), 0xBEEF);
    assert_eq!(s.get_regw(WordRegister::SP), SP_START);
    s.set_regb(ByteRegister::M, 0x42);
    s.run_instruction(Opcode::PushRB(ByteRegister::M)).unwrap();
    s.run_instruction(Opcode::PopRB(ByteRegister::N)).unwrap();
    assert_eq!(s.get_regb(ByteRegister::N), 0x42);
    assert_eq!(s.get_regw(WordRegister::SP), SP_START);
}

#[test]
fn popping_an_empty_stack_halts() {
    let mut s = System::new(vec![0xFF]).unwrap();
    s.run_instruction(Opcode::PopRW(WordRegister::HA)).unwrap();
    assert!(s.is_halted());
    assert_eq!(s.get_regw(WordRegister::SP), SP_START);
}

#[test]
fn exchanging_twice_restores_the_registers() {
    let mut s = System::new(vec![0xFF]).unwrap();
    s.set_regw(WordRegister::HA, 0x1234);
    s.set_regw(WordRegister::R4, 0x5678);
    let op = Opcode::XchCcRRW(ConditionCode::True, WordRegister::HA, WordRegister::R4);
    s.run_instruction(op).unwrap();
    assert_eq!(s.get_regw(WordRegister::HA), 0x5678);
    assert_eq!(s.get_regw(WordRegister::R4), 0x1234);
    s.run_instruction(op).unwrap();
    assert_eq!(s.get_regw(WordRegister::HA), 0x1234);
    assert_eq!(s.get_regw(WordRegister::R4), 0x5678);
    s.set_regb(ByteRegister::H, 1);
    s.set_regb(ByteRegister::C, 2);
    let op = Opcode::XchCcRRB(ConditionCode::True, ByteRegister::H, ByteRegister::C);
    s.run_instruction(op).unwrap();
    s.run_instruction(op).unwrap();
    assert_eq!(s.get_regb(ByteRegister::H), 1);
    assert_eq!(s.get_regb(ByteRegister::C), 2);
}

#[test]
fn compare_leaves_the_destination() {
    let mut s = System::new(vec![0xFF]).unwrap();
    s.set_regb(ByteRegister::A, 3);
    s.run_instruction(Opcode::CpAlubRIB(AluBinaryOperation::Sub, ByteRegister::A, 3)).unwrap();
    assert_eq!(s.get_regb(ByteRegister::A), 3);
    assert!(s.condition(ConditionCode::Z));
    s.run_instruction(Opcode::CpAlubRIB(AluBinaryOperation::Sub, ByteRegister::A, 4)).unwrap();
    assert!(s.condition(ConditionCode::C));
    assert!(s.condition(ConditionCode::L));
}

#[test]
fn bit_instructions() {
    let mut s = System::new(vec![0xFF]).unwrap();
    s.run_instruction(Opcode::StbRIB(ByteRegister::A, 3)).unwrap();
    assert_eq!(s.get_regb(ByteRegister::A), 0x08);
    s.run_instruction(Opcode::StbRIB(ByteRegister::A, 9)).unwrap();
    assert_eq!(s.get_regb(ByteRegister::A), 0x0A);
    s.run_instruction(Opcode::TgbRIW(WordRegister::HA, 15)).unwrap();
    assert_eq!(s.get_regw(WordRegister::HA), 0x800A);
    s.run_instruction(Opcode::ClbRIB(ByteRegister::A, 1)).unwrap();
    assert_eq!(s.get_regb(ByteRegister::A), 0x08);
    s.run_instruction(Opcode::TbitRIB(ByteRegister::A, 2)).unwrap();
    assert!(s.condition(ConditionCode::Z));
    s.set_regb(ByteRegister::B, 3);
    s.run_instruction(Opcode::TbitRRB(ByteRegister::A, ByteRegister::B)).unwrap();
    assert!(s.condition(ConditionCode::NZ));
}

#[test]
fn load_effective_address() {
    let mut s = System::new(vec![0xFF]).unwrap();
    s.set_regw(WordRegister::BC, 0x1000);
    s.run_instruction(Opcode::LeaCcROW(ConditionCode::True, WordRegister::HA, -16, WordRegister::BC)).unwrap();
    assert_eq!(s.get_regw(WordRegister::HA), 0x0FF0);
    s.run_instruction(Opcode::LeaCcROB(ConditionCode::True, ByteRegister::X, 0x34, WordRegister::BC)).unwrap();
    assert_eq!(s.get_regb(ByteRegister::X), 0x34);
}

#[test]
fn storing_to_rom_fails() {
    let mut s = System::new(vec![0xFF]).unwrap();
    assert_eq!(s.run_instruction(Opcode::MovARB(0x8000, ByteRegister::A)), Err(SystemError::WriteToRom));
}

#[test]
fn running_off_the_rom_is_an_undefined_opcode() {
    let mut s = System::new(vec![0xF0]).unwrap();
    assert_eq!(s.step(), Ok(SystemStep::RanInstruction(Opcode::Nop)));
    assert_eq!(s.cycles(), 1);
    assert!(matches!(s.step(), Err(SystemError::InvalidOpcodeError(_))));
}

#[test]
fn standard_input_is_asked_of_the_host() {
    let rom = program(&[
        Opcode::MovRAB(ByteRegister::A, 0x7F80),
        Opcode::MovARB(0x7F80, ByteRegister::A),
        Opcode::MovRAW(WordRegister::BC, 0x7F80),
        Opcode::Halt,
    ]);
    let mut s = System::new(rom).unwrap();
    let before = s.clone();
    assert_eq!(s.step(), Ok(SystemStep::NeedsInput));
    assert_eq!(s, before);
    s.provide_input(Some(b'x'));
    assert_eq!(s.step(), Ok(SystemStep::RanInstruction(Opcode::MovRAB(ByteRegister::A, 0x7F80))));
    assert_eq!(s.get_regb(ByteRegister::A), b'x');
    s.step().unwrap();
    assert_eq!(s.take_output(), vec![b'x']);
    assert_eq!(s.take_output(), Vec::<u8>::new());
    assert_eq!(s.step(), Ok(SystemStep::NeedsInput));
    s.provide_input(None);
    s.step().unwrap();
    assert_eq!(s.get_regw(WordRegister::BC), 0xFFFF);
    run_until_halt(&mut s);
}

#[test]
fn reading_standard_input_directly_without_input_fails() {
    let mut s = System::new(vec![0xFF]).unwrap();
    assert_eq!(s.get_memb(0x7F80), Err(SystemError::InputUnavailable));
    s.provide_input(Some(7));
    assert_eq!(s.get_memb(0x7F80), Ok(7));
    assert_eq!(s.get_memb(0x7F80), Err(SystemError::InputUnavailable));
}

#[test]
fn vblank_without_a_vector_does_nothing_but_count() {
    let mut s = System::new(vec![0xF0, 0xF0]).unwrap();
    *s.cycles_mut() = VBLANK_INTERVAL;
    assert_eq!(s.step(), Ok(SystemStep::Interrupt(0x7FF0)));
    assert_eq!(s.get_regw(WordRegister::PC), PC_START);
    assert_eq!(s.get_regw(WordRegister::SP), SP_START);
    assert_eq!(s.step(), Ok(SystemStep::RanInstruction(Opcode::Nop)));
}

#[test]
fn vblank_enters_the_handler_and_reti_returns() {
    let rom = program(&[Opcode::Nop, Opcode::Halt, Opcode::Reti]);
    let mut s = System::new(rom).unwrap();
    s.set_memw(0x7FF0, 0x8002).unwrap();
    *s.cycles_mut() = VBLANK_INTERVAL;
    assert_eq!(s.step(), Ok(SystemStep::Interrupt(0x7FF0)));
    assert_eq!(s.get_regw(WordRegister::PC), 0x8002);
    assert_eq!(s.get_regw(WordRegister::SP), SP_START - 2);
    assert_eq!(s.cycles(), VBLANK_INTERVAL + 1);
    assert_eq!(s.step(), Ok(SystemStep::RanInstruction(Opcode::Reti)));
    assert_eq!(s.get_regw(WordRegister::PC), PC_START);
    assert_eq!(s.get_regw(WordRegister::SP), SP_START);
    assert_eq!(s.step(), Ok(SystemStep::RanInstruction(Opcode::Nop)));
}

#[test]
fn an_active_interrupt_is_not_entered_again() {
    let mut s = System::new(vec![0xFF]).unwrap();
    s.set_memw(0x7FF0, 0x9000).unwrap();
    s.interrupt(0x7FF0).unwrap();
    assert_eq!(s.get_regw(WordRegister::PC), 0x9000);
    s.set_regw(WordRegister::PC, 0x8000);
    s.interrupt(0x7FF0).unwrap();
    assert_eq!(s.get_regw(WordRegister::PC), 0x8000);
    assert_eq!(s.get_regw(WordRegister::SP), SP_START - 2);
}
