use cpu3v2::system::gpu::VRAM_SIZE;
use cpu3v2::system::{System, SystemError, MAX_ROM_SIZE, RAM_SIZE, ROM_PAGE_SIZE};

#[test]
fn ram_reads_back_what_was_written() {
    let mut s = System::new(vec![0xFF]).unwrap();
    s.set_memb(0x1234, 0xAB).unwrap();
    assert_eq!(s.get_memb(0x1234), Ok(0xAB));
    s.set_memw(0x2000, 0xBEEF).unwrap();
    assert_eq!(s.get_memw(0x2000), Ok(0xBEEF));
    assert_eq!(s.get_memb(0x2000), Ok(0xBE));
    assert_eq!(s.get_memb(0x2001), Ok(0xEF));
    assert_eq!(s.ram()[0x2001], 0xEF);
    assert_eq!(s.ram().len(), RAM_SIZE);
}

#[test]
fn rom_is_read_only() {
    let mut s = System::new(vec![0x11, 0x22, 0x33]).unwrap();
    assert_eq!(s.get_memb(0x8001), Ok(0x22));
    assert_eq!(s.get_memw(0x8001), Ok(0x2233));
    assert_eq!(s.set_memb(0x8000, 0), Err(SystemError::WriteToRom));
    assert_eq!(s.get_memb(0x8003), Err(SystemError::ReadOutOfRomBounds));
    assert_eq!(s.get_memw(0x8002), Err(SystemError::ReadOutOfRomBounds));
}

#[test]
fn a_word_straddling_ram_and_rom_keeps_its_high_byte() {
    let mut s = System::new(vec![0xFF]).unwrap();
    assert_eq!(s.set_memw(0x7FFF, 0x1234), Err(SystemError::WriteToRom));
    assert_eq!(s.ram()[0x7FFF], 0x12);
}

#[test]
fn page_select_chooses_the_rom_page() {
    let mut rom = vec![0u8; ROM_PAGE_SIZE + 2];
    rom[0] = 0x11;
    rom[ROM_PAGE_SIZE] = 0x22;
    let mut s = System::new(rom).unwrap();
    assert_eq!(s.get_memb(0x8000), Ok(0x11));
    s.set_memb(0x7FFE, 1).unwrap();
    assert_eq!(s.get_memb(0x8000), Ok(0x22));
    assert_eq!(s.get_memb(0x8002), Err(SystemError::ReadOutOfRomBounds));
}

#[test]
fn rom_size_is_limited() {
    assert_eq!(System::new(vec![0; MAX_ROM_SIZE + 1]).err(), Some(SystemError::RomTooLarge));
    assert!(System::new(vec![0; MAX_ROM_SIZE]).is_ok());
    assert_eq!(MAX_ROM_SIZE, 0x20000);
    assert_eq!(System::new(vec![0; 0x20001]).err(), Some(SystemError::RomTooLarge));
    let mut s = System::new(vec![1, 2]).unwrap();
    assert_eq!(s.replace_rom(vec![0; MAX_ROM_SIZE + 1]), Err(SystemError::RomTooLarge));
    assert_eq!(s.rom(), &[1, 2]);
    assert_eq!(s.replace_rom(vec![0; 0x20001]), Err(SystemError::RomTooLarge));
    assert_eq!(s.rom(), &[1, 2]);
    assert_eq!(s.replace_rom(vec![3]), Ok(vec![1, 2]));
    assert_eq!(s.take_rom(), vec![3]);
    assert!(s.rom().is_empty());
}

#[test]
fn the_rom_can_be_patched() {
    let mut s = System::new(vec![1, 2]).unwrap();
    s.rom_mut()[1] = 9;
    assert_eq!(s.get_memb(0x8001), Ok(9));
    s.ram_mut()[5] = 4;
    assert_eq!(s.get_memb(5), Ok(4));
}

#[test]
fn vram_ports_advance_the_pointer() {
    let mut s = System::new(vec![0xFF]).unwrap();
    s.set_memw(0x7F90, 0x0100).unwrap();
    assert_eq!(s.vram_pointer(), 0x0100);
    s.set_memb(0x7F91, 0xAA).unwrap();
    assert_eq!(s.vram_pointer(), 0x0101);
    s.set_memw(0x7F92, 0x1234).unwrap();
    assert_eq!(s.vram_pointer(), 0x0103);
    assert_eq!(s.vram()[0x100], 0xAA);
    assert_eq!(s.vram()[0x101], 0x12);
    assert_eq!(s.vram()[0x102], 0x34);
    s.set_memw(0x7F90, 0x0101).unwrap();
    assert_eq!(s.get_memw(0x7F92), Ok(0x1234));
    assert_eq!(s.get_memb(0x7F91), Ok(0x12));
    assert_eq!(s.get_memw(0x7F90), Ok(0x0101));
    assert_eq!(s.vram().len(), VRAM_SIZE);
}

#[test]
fn the_vram_pointer_wraps_around() {
    let mut s = System::new(vec![0xFF]).unwrap();
    *s.vram_pointer_mut() = 0xFFFF;
    s.set_memw(0x7F92, 0xABCD).unwrap();
    assert_eq!(s.vram()[0xFFFF], 0xAB);
    assert_eq!(s.vram()[0x0000], 0xCD);
    assert_eq!(s.vram_pointer(), 0x0001);
    s.vram_mut()[7] = 3;
    *s.vram_pointer_mut() = 7;
    assert_eq!(s.get_memb(0x7F91), Ok(3));
}

#[test]
fn window_input_is_read_in_order() {
    let mut s = System::new(vec![0xFF]).unwrap();
    assert_eq!(s.get_memw(0x7F81), Ok(0xFFFF));
    s.input_text("hi");
    assert_eq!(s.get_memb(0x7F81), Ok(b'h'));
    assert_eq!(s.get_memw(0x7F81), Ok(b'i' as u16));
    assert_eq!(s.get_memw(0x7F81), Ok(0xFFFF));
}

#[test]
fn standard_output_collects_bytes() {
    let mut s = System::new(vec![0xFF]).unwrap();
    s.set_memb(0x7F80, b'o').unwrap();
    s.set_memw(0x7F80, 0x116B).unwrap();
    assert_eq!(s.take_output(), b"ok".to_vec());
}

#[test]
fn halting_sets_the_top_flag_bit() {
    let mut s = System::new(vec![0xFF]).unwrap();
    s.halt();
    assert!(s.is_halted());
    assert_eq!(s.get_regw(cpu3v2::register::WordRegister::FL), 0x8000);
    s.halt();
    assert_eq!(s.get_regw(cpu3v2::register::WordRegister::FL), 0x8000);
}

#[test]
fn system_error_messages() {
    assert_eq!(SystemError::RomTooLarge.message(), "rom too large");
    assert_eq!(SystemError::Halted.message(), "system was halted");
    assert_eq!(
        SystemError::from(cpu3v2::opcode::InvalidOpcodeError::UndefinedOpcode),
        SystemError::InvalidOpcodeError(cpu3v2::opcode::InvalidOpcodeError::UndefinedOpcode)
    );
}
