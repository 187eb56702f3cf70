//! The core logic for the system: the state of the emulator, its registers and
//! its memory map.
//!
//! The standard input and output ports are buffered inside the system: the host
//! supplies the next standard-input value with [`System::provide_input`] when a step
//! reports [`SystemStep::NeedsInput`], and collects written bytes with
//! [`System::take_output`].

use std::collections::VecDeque;

use vstd::prelude::*;
use vstd::string::StringSliceAdditionalSpecFns;

use crate::opcode::{hi_byte, lo_byte, word_of, InvalidOpcodeError};
use crate::register::{ByteRegister, WordRegister};

/// The logic for the GPU.
pub mod gpu;
mod step;
pub mod properties;

pub use step::SystemStep;

verus! {

/// The size of the RAM in bytes.
pub const RAM_SIZE: usize = 0x8000;

/// The size of a ROM page in bytes.
pub const ROM_PAGE_SIZE: usize = 0x8000;

/// The largest ROM the system accepts, in bytes: 128 KiB, four pages.
pub const MAX_ROM_SIZE: usize = 0x20000;

/// The starting address of the stack pointer (SP).
pub const SP_START: u16 = 0x7F80;

/// The starting address of the program counter (PC).
pub const PC_START: u16 = 0x8000;

/// The address of the standard input/output port.
pub const STDIO_PORT: u16 = 0x7F80;

/// The address of the window input port.
pub const WINDOW_INPUT_PORT: u16 = 0x7F81;

/// The address of the VRAM pointer port.
pub const VRAM_POINTER_PORT: u16 = 0x7F90;

/// The address of the 8-bit VRAM access port.
pub const VRAM_BYTE_PORT: u16 = 0x7F91;

/// The address of the 16-bit VRAM access port.
pub const VRAM_WORD_PORT: u16 = 0x7F92;

/// The address of the ROM page select byte.
pub const PAGE_SELECT: u16 = 0x7FFE;

/// The value a read of an input port gives when no input is there.
pub const NO_INPUT: u16 = 0xFFFF;

/// An error that occurs during system operations.
#[derive(Clone, Copy, Debug, PartialEq, Eq)]
#[non_exhaustive]
pub enum SystemError {
    /// The ROM provided to the system is too large.
    RomTooLarge,
    /// Attempted to write to ROM, which is not allowed.
    WriteToRom,
    /// Attempted to read from ROM out of bounds.
    ReadOutOfRomBounds,
    /// The system is halted and cannot execute further instructions.
    Halted,
    /// The standard input port was read before the host supplied a value.
    InputUnavailable,
    /// Invalid opcode encountered.
    InvalidOpcodeError(InvalidOpcodeError),
}

impl SystemError {
    /// The description of the error.
    pub open spec fn spec_message(self) -> Seq<char> {
        match self {
            SystemError::RomTooLarge => "rom too large"@,
            SystemError::WriteToRom => "attempt to write to rom"@,
            SystemError::ReadOutOfRomBounds => "read out of rom bounds"@,
            SystemError::Halted => "system was halted"@,
            SystemError::InputUnavailable => "no standard input was supplied"@,
            SystemError::InvalidOpcodeError(e) => e.spec_message(),
        }
    }

    /// Returns the description of the error.
    pub fn message(self) -> (r: &'static str)
        ensures
            r@ == self.spec_message(),
    {
        match self {
            SystemError::RomTooLarge => "rom too large",
            SystemError::WriteToRom => "attempt to write to rom",
            SystemError::ReadOutOfRomBounds => "read out of rom bounds",
            SystemError::Halted => "system was halted",
            SystemError::InputUnavailable => "no standard input was supplied",
            SystemError::InvalidOpcodeError(e) => e.message(),
        }
    }
}

impl From<InvalidOpcodeError> for SystemError {
    fn from(value: InvalidOpcodeError) -> (r: Self)
        ensures
            r == SystemError::InvalidOpcodeError(value),
    {
        SystemError::InvalidOpcodeError(value)
    }
}

impl vstd::std_specs::convert::FromSpecImpl<InvalidOpcodeError> for SystemError {
    open spec fn obeys_from_spec() -> bool {
        true
    }

    open spec fn from_spec(v: InvalidOpcodeError) -> SystemError {
        SystemError::InvalidOpcodeError(v)
    }
}

/// The abstract state of the system: what every operation is specified over.
#[verifier::ext_equal]
pub struct Machine {
    pub h: u8,
    pub a: u8,
    pub b: u8,
    pub c: u8,
    pub x: u8,
    pub l: u8,
    pub m: u8,
    pub n: u8,
    pub r4: u16,
    pub sp: u16,
    pub fl: u16,
    pub pc: u16,
    /// The RAM, `RAM_SIZE` bytes.
    pub ram: Seq<u8>,
    /// The ROM, all pages one after the other.
    pub rom: Seq<u8>,
    /// The video RAM, `VRAM_SIZE` bytes.
    pub vram: Seq<u8>,
    pub vram_pointer: u16,
    pub cycles: u64,
    pub frames: u32,
    /// Window input not yet read, oldest first.
    pub text_input: Seq<u8>,
    /// The value the next read of the standard input port gives, once the host has
    /// supplied it.
    pub input: Option<u16>,
    /// Bytes written to the standard output port and not yet taken by the host.
    pub output: Seq<u8>,
    pub active_interrupt: Option<u16>,
    pub next_vblank: u64,
}

impl Machine {
    /// The value of a byte register.
    pub open spec fn regb(self, r: ByteRegister) -> u8 {
        match r {
            ByteRegister::H => self.h,
            ByteRegister::A => self.a,
            ByteRegister::B => self.b,
            ByteRegister::C => self.c,
            ByteRegister::X => self.x,
            ByteRegister::L => self.l,
            ByteRegister::M => self.m,
            ByteRegister::N => self.n,
        }
    }

    /// The state with a byte register replaced.
    pub open spec fn with_regb(self, r: ByteRegister, v: u8) -> Machine {
        match r {
            ByteRegister::H => Machine { h: v, ..self },
            ByteRegister::A => Machine { a: v, ..self },
            ByteRegister::B => Machine { b: v, ..self },
            ByteRegister::C => Machine { c: v, ..self },
            ByteRegister::X => Machine { x: v, ..self },
            ByteRegister::L => Machine { l: v, ..self },
            ByteRegister::M => Machine { m: v, ..self },
            ByteRegister::N => Machine { n: v, ..self },
        }
    }

    /// The value of a word register; the first four are pairs of byte registers,
    /// high byte first.
    pub open spec fn regw(self, r: WordRegister) -> u16 {
        match r {
            WordRegister::HA => word_of(self.h, self.a),
            WordRegister::BC => word_of(self.b, self.c),
            WordRegister::XL => word_of(self.x, self.l),
            WordRegister::MN => word_of(self.m, self.n),
            WordRegister::R4 => self.r4,
            WordRegister::SP => self.sp,
            WordRegister::FL => self.fl,
            WordRegister::PC => self.pc,
        }
    }

    /// The state with a word register replaced.
    pub open spec fn with_regw(self, r: WordRegister, v: u16) -> Machine {
        match r {
            WordRegister::HA => Machine { h: hi_byte(v), a: lo_byte(v), ..self },
            WordRegister::BC => Machine { b: hi_byte(v), c: lo_byte(v), ..self },
            WordRegister::XL => Machine { x: hi_byte(v), l: lo_byte(v), ..self },
            WordRegister::MN => Machine { m: hi_byte(v), n: lo_byte(v), ..self },
            WordRegister::R4 => Machine { r4: v, ..self },
            WordRegister::SP => Machine { sp: v, ..self },
            WordRegister::FL => Machine { fl: v, ..self },
            WordRegister::PC => Machine { pc: v, ..self },
        }
    }

    /// Whether the halt bit (bit 15 of FL) is set.
    pub open spec fn is_halted(self) -> bool {
        self.fl >= 0x8000
    }

    /// The state with the halt bit set.
    pub open spec fn halt(self) -> Machine {
        Machine { fl: if self.fl >= 0x8000 { self.fl } else { (self.fl + 0x8000) as u16 }, ..self }
    }

    /// The state after `n` more cycles; the 64-bit cycle counter wraps around.
    pub open spec fn tick(self, n: u64) -> Machine {
        Machine { cycles: self.cycles.wrapping_add(n), ..self }
    }

    /// A read of RAM or ROM that bypasses the memory-mapped ports. Addresses from
    /// `0x8000` read the ROM page chosen by the page select byte.
    pub open spec fn read_direct(self, addr: u16) -> Result<u8, SystemError> {
        if addr < 0x8000 {
            Ok(self.ram[addr as int])
        } else {
            let index = addr - 0x8000 + self.ram[PAGE_SELECT as int] * 0x8000;
            if index < self.rom.len() {
                Ok(self.rom[index])
            } else {
                Err(SystemError::ReadOutOfRomBounds)
            }
        }
    }

    /// A write of RAM that bypasses the memory-mapped ports; the ROM cannot be written.
    pub open spec fn write_direct(self, addr: u16, v: u8) -> (Machine, Result<(), SystemError>) {
        if addr < 0x8000 {
            (Machine { ram: self.ram.update(addr as int, v), ..self }, Ok(()))
        } else {
            (self, Err(SystemError::WriteToRom))
        }
    }

    /// Whether a read of `addr` goes to a memory-mapped port.
    pub open spec fn is_read_port(addr: u16) -> bool {
        addr == STDIO_PORT || addr == WINDOW_INPUT_PORT || addr == VRAM_POINTER_PORT
            || addr == VRAM_BYTE_PORT || addr == VRAM_WORD_PORT
    }

    /// Whether a write of `addr` goes to a memory-mapped port.
    pub open spec fn is_write_port(addr: u16) -> bool {
        addr == STDIO_PORT || addr == VRAM_POINTER_PORT || addr == VRAM_BYTE_PORT
            || addr == VRAM_WORD_PORT
    }

    /// A read of a memory-mapped port.
    pub open spec fn read_port(self, addr: u16) -> (Machine, Result<u16, SystemError>) {
        if addr == STDIO_PORT {
            match self.input {
                Some(v) => (Machine { input: None, ..self }, Ok(v)),
                None => (self, Err(SystemError::InputUnavailable)),
            }
        } else if addr == WINDOW_INPUT_PORT {
            if self.text_input.len() > 0 {
                (Machine { text_input: self.text_input.drop_first(), ..self }, Ok(self.text_input[0] as u16))
            } else {
                (self, Ok(NO_INPUT))
            }
        } else if addr == VRAM_POINTER_PORT {
            (self, Ok(self.vram_pointer))
        } else if addr == VRAM_BYTE_PORT {
            (self, Ok(self.vram[self.vram_pointer as int] as u16))
        } else {
            (
                self,
                Ok(
                    word_of(
                        self.vram[self.vram_pointer as int],
                        self.vram[self.vram_pointer.wrapping_add(1) as int],
                    ),
                ),
            )
        }
    }

    /// A write of a memory-mapped port.
    pub open spec fn write_port(self, addr: u16, value: u16) -> Machine {
        let p = self.vram_pointer;
        if addr == STDIO_PORT {
            Machine { output: self.output.push(lo_byte(value)), ..self }
        } else if addr == VRAM_POINTER_PORT {
            Machine { vram_pointer: value, ..self }
        } else if addr == VRAM_BYTE_PORT {
            Machine {
                vram: self.vram.update(p as int, lo_byte(value)),
                vram_pointer: p.wrapping_add(1),
                ..self
            }
        } else {
            Machine {
                vram: self.vram.update(p as int, hi_byte(value)).update(
                    p.wrapping_add(1) as int,
                    lo_byte(value),
                ),
                vram_pointer: p.wrapping_add(2),
                ..self
            }
        }
    }

    /// A byte read of memory: a port gives the low byte of its value.
    pub open spec fn read_byte(self, addr: u16) -> (Machine, Result<u8, SystemError>) {
        if Machine::is_read_port(addr) {
            let (m, r) = self.read_port(addr);
            (
                m,
                match r {
                    Ok(v) => Ok(lo_byte(v)),
                    Err(e) => Err(e),
                },
            )
        } else {
            (self, self.read_direct(addr))
        }
    }

    /// A word read of memory, big-endian; a port gives its whole value.
    pub open spec fn read_word(self, addr: u16) -> (Machine, Result<u16, SystemError>) {
        if Machine::is_read_port(addr) {
            self.read_port(addr)
        } else {
            match self.read_direct(addr) {
                Err(e) => (self, Err(e)),
                Ok(hi) => match self.read_direct(addr.wrapping_add(1)) {
                    Err(e) => (self, Err(e)),
                    Ok(lo) => (self, Ok(word_of(hi, lo))),
                },
            }
        }
    }

    /// A byte write of memory.
    pub open spec fn write_byte(self, addr: u16, v: u8) -> (Machine, Result<(), SystemError>) {
        if Machine::is_write_port(addr) {
            (self.write_port(addr, v as u16), Ok(()))
        } else {
            self.write_direct(addr, v)
        }
    }

    /// A word write of memory, big-endian. The high byte is written first, so a word
    /// that straddles the end of RAM leaves its high byte written.
    pub open spec fn write_word(self, addr: u16, v: u16) -> (Machine, Result<(), SystemError>) {
        if Machine::is_write_port(addr) {
            (self.write_port(addr, v), Ok(()))
        } else {
            let (m, r) = self.write_direct(addr, hi_byte(v));
            match r {
                Err(e) => (m, Err(e)),
                Ok(_) => m.write_direct(addr.wrapping_add(1), lo_byte(v)),
            }
        }
    }
}

/// The state of the emulator, including registers, memory, and system flags.
#[derive(Clone, Debug, PartialEq, Eq, PartialOrd, Ord)]
pub struct System {
    reg_h: u8,
    reg_a: u8,
    reg_b: u8,
    reg_c: u8,
    reg_x: u8,
    reg_l: u8,
    reg_m: u8,
    reg_n: u8,
    reg_r4: u16,
    reg_sp: u16,
    reg_fl: u16,
    reg_pc: u16,
    /// The RAM of the system.
    ram: Box<[u8; RAM_SIZE]>,
    /// The ROM of the system.
    rom: Vec<u8>,
    /// The number of cycles executed by the system.
    cycles: u64,
    /// The number of frames outputted by the system.
    frames: u32,
    /// The Video RAM pointer.
    vram_pointer: u16,
    /// The Video RAM.
    vram: Box<[u8; gpu::VRAM_SIZE]>,
    /// The text input buffer for window input.
    text_input_buffer: VecDeque<u8>,
    /// The value supplied by the host for the next read of standard input.
    standard_input: Option<u16>,
    /// Bytes written to standard output that the host has not taken yet.
    standard_output: Vec<u8>,
    /// The active interrupt.
    active_interrupt: Option<u16>,
    /// The next cycle where a vblank interrupt will occur.
    next_vblank: u64,
}

impl View for System {
    type V = Machine;

    closed spec fn view(&self) -> Machine {
        Machine {
            h: self.reg_h,
            a: self.reg_a,
            b: self.reg_b,
            c: self.reg_c,
            x: self.reg_x,
            l: self.reg_l,
            m: self.reg_m,
            n: self.reg_n,
            r4: self.reg_r4,
            sp: self.reg_sp,
            fl: self.reg_fl,
            pc: self.reg_pc,
            ram: self.ram@,
            rom: self.rom@,
            vram: self.vram@,
            vram_pointer: self.vram_pointer,
            cycles: self.cycles,
            frames: self.frames,
            text_input: self.text_input_buffer@,
            input: self.standard_input,
            output: self.standard_output@,
            active_interrupt: self.active_interrupt,
            next_vblank: self.next_vblank,
        }
    }
}

/// The state of a freshly started system with the given ROM: every register and
/// every byte of RAM and VRAM is zero, except SP = `SP_START` and PC = `PC_START`.
pub open spec fn initial_machine(rom: Seq<u8>) -> Machine {
    Machine {
        h: 0,
        a: 0,
        b: 0,
        c: 0,
        x: 0,
        l: 0,
        m: 0,
        n: 0,
        r4: 0,
        sp: SP_START,
        fl: 0,
        pc: PC_START,
        ram: Seq::new(RAM_SIZE as nat, |i: int| 0u8),
        rom: rom,
        vram: Seq::new(gpu::VRAM_SIZE as nat, |i: int| 0u8),
        vram_pointer: 0,
        cycles: 0,
        frames: 0,
        text_input: Seq::empty(),
        input: None,
        output: Seq::empty(),
        active_interrupt: None,
        next_vblank: gpu::VBLANK_INTERVAL,
    }
}

impl Default for System {
    fn default() -> (r: Self)
        ensures
            r@ == initial_machine(Seq::empty()),
    {
        let r = System {
            reg_h: 0,
            reg_a: 0,
            reg_b: 0,
            reg_c: 0,
            reg_x: 0,
            reg_l: 0,
            reg_m: 0,
            reg_n: 0,
            reg_r4: 0,
            reg_sp: SP_START,
            reg_fl: 0,
            reg_pc: PC_START,
            ram: Box::new([0u8; RAM_SIZE]),
            rom: Vec::new(),
            cycles: 0,
            frames: 0,
            vram_pointer: 0,
            vram: Box::new([0u8; gpu::VRAM_SIZE]),
            text_input_buffer: VecDeque::new(),
            standard_input: None,
            standard_output: Vec::new(),
            active_interrupt: None,
            next_vblank: gpu::VBLANK_INTERVAL,
        };
        assert(r@.ram =~= Seq::new(RAM_SIZE as nat, |i: int| 0u8));
        assert(r@.vram =~= Seq::new(gpu::VRAM_SIZE as nat, |i: int| 0u8));
        r
    }
}

impl System {
    /// Creates a new `System` with the provided ROM.
    ///
    /// # Errors
    ///
    /// Returns `SystemError::RomTooLarge` if the ROM exceeds the maximum allowed size
    /// of 128 KiB (`MAX_ROM_SIZE` bytes).
    pub fn new(rom: Vec<u8>) -> (r: Result<Self, SystemError>)
        ensures
            rom@.len() > MAX_ROM_SIZE ==> r == Err::<Self, SystemError>(SystemError::RomTooLarge),
            rom@.len() <= MAX_ROM_SIZE ==> (r matches Ok(s) && s@ == initial_machine(rom@)),
    {
        if rom.len() > MAX_ROM_SIZE {
            return Err(SystemError::RomTooLarge);
        }
        let mut s = System::default();
        s.rom = rom;
        Ok(s)
    }

    /// Takes the ROM from the system, replacing it with an empty ROM. Returns the
    /// previous ROM.
    pub fn take_rom(&mut self) -> (r: Vec<u8>)
        ensures
            r@ == old(self)@.rom,
            final(self)@ == (Machine { rom: Seq::empty(), ..old(self)@ }),
    {
        let mut rom = Vec::new();
        std::mem::swap(&mut rom, &mut self.rom);
        rom
    }

    /// Replaces the current ROM with a new one, returning the previous ROM.
    ///
    /// # Errors
    ///
    /// Returns `SystemError::RomTooLarge` if the new ROM exceeds the maximum allowed
    /// size of 128 KiB (`MAX_ROM_SIZE` bytes); the ROM is then not replaced.
    pub fn replace_rom(&mut self, rom: Vec<u8>) -> (r: Result<Vec<u8>, SystemError>)
        ensures
            rom@.len() > MAX_ROM_SIZE ==> r == Err::<Vec<u8>, SystemError>(SystemError::RomTooLarge)
                && final(self)@ == old(self)@,
            rom@.len() <= MAX_ROM_SIZE ==> (r matches Ok(prev) && prev@ == old(self)@.rom
                && final(self)@ == (Machine { rom: rom@, ..old(self)@ })),
    {
        if rom.len() > MAX_ROM_SIZE {
            return Err(SystemError::RomTooLarge);
        }
        let mut rom = rom;
        std::mem::swap(&mut rom, &mut self.rom);
        Ok(rom)
    }

    /// Returns a reference to the RAM of the system.
    pub fn ram(&self) -> (r: &[u8; RAM_SIZE])
        ensures
            r@ == self@.ram,
    {
        &self.ram
    }

    /// Returns a mutable reference to the RAM of the system.
    pub fn ram_mut(&mut self) -> (r: &mut [u8; RAM_SIZE])
        ensures
            r@ == old(self)@.ram,
            final(self)@ == (Machine { ram: final(r)@, ..old(self)@ }),
    {
        &mut self.ram
    }

    /// Returns a reference to the ROM of the system.
    pub fn rom(&self) -> (r: &[u8])
        ensures
            r@ == self@.rom,
    {
        self.rom.as_slice()
    }

    /// Returns a mutable reference to the ROM of the system.
    pub fn rom_mut(&mut self) -> (r: &mut [u8])
        ensures
            r@ == old(self)@.rom,
            final(self)@ == (Machine { rom: final(r)@, ..old(self)@ }),
    {
        self.rom.as_mut_slice()
    }

    /// Returns whether the system is halted (bit 15 of FL is set).
    pub fn is_halted(&self) -> (r: bool)
        ensures
            r == self@.is_halted(),
    {
        self.reg_fl >= 0x8000
    }

    /// Halts the system.
    pub fn halt(&mut self)
        ensures
            final(self)@ == old(self)@.halt(),
    {
        if self.reg_fl < 0x8000 {
            self.reg_fl = self.reg_fl + 0x8000;
        }
    }

    /// Returns the number of cycles the system has performed.
    pub fn cycles(&self) -> (r: u64)
        ensures
            r == self@.cycles,
    {
        self.cycles
    }

    /// Returns the number of frames the system has outputted.
    pub fn frames(&self) -> (r: u32)
        ensures
            r == self@.frames,
    {
        self.frames
    }

    /// Returns a mutable reference to the number of cycles the system has performed.
    pub fn cycles_mut(&mut self) -> (r: &mut u64)
        ensures
            *r == old(self)@.cycles,
            final(self)@ == (Machine { cycles: *final(r), ..old(self)@ }),
    {
        &mut self.cycles
    }

    /// Returns a mutable reference to the number of frames the system has outputted.
    pub fn frames_mut(&mut self) -> (r: &mut u32)
        ensures
            *r == old(self)@.frames,
            final(self)@ == (Machine { frames: *final(r), ..old(self)@ }),
    {
        &mut self.frames
    }

    /// Returns the current value of the Video RAM pointer.
    pub fn vram_pointer(&self) -> (r: u16)
        ensures
            r == self@.vram_pointer,
    {
        self.vram_pointer
    }

    /// Returns a reference to the Video RAM.
    pub fn vram(&self) -> (r: &[u8; gpu::VRAM_SIZE])
        ensures
            r@ == self@.vram,
    {
        &self.vram
    }

    /// Returns a mutable reference to the Video RAM pointer.
    pub fn vram_pointer_mut(&mut self) -> (r: &mut u16)
        ensures
            *r == old(self)@.vram_pointer,
            final(self)@ == (Machine { vram_pointer: *final(r), ..old(self)@ }),
    {
        &mut self.vram_pointer
    }

    /// Returns a mutable reference to the Video RAM.
    pub fn vram_mut(&mut self) -> (r: &mut [u8; gpu::VRAM_SIZE])
        ensures
            r@ == old(self)@.vram,
            final(self)@ == (Machine { vram: final(r)@, ..old(self)@ }),
    {
        &mut self.vram
    }

    /// Input text into the window input buffer: its UTF-8 bytes are read, in order,
    /// from the window input port.
    pub fn input_text(&mut self, text: &str)
        ensures
            final(self)@ == (Machine {
                text_input: old(self)@.text_input + text.spec_bytes(),
                ..old(self)@
            }),
    {
        let bytes = text.as_bytes();
        let n = bytes.len();
        for i in 0..n
            invariant
                n == bytes@.len(),
                bytes@ == text.spec_bytes(),
                self@ == (Machine {
                    text_input: old(self)@.text_input + bytes@.take(i as int),
                    ..old(self)@
                }),
        {
            self.text_input_buffer.push_back(bytes[i]);
            assert(bytes@.take(i + 1) =~= bytes@.take(i as int).push(bytes@[i as int]));
        }
        assert(bytes@.take(n as int) =~= bytes@);
    }

    /// Supplies the value the next read of the standard input port gives: a byte, or
    /// `None` at the end of input, which reads as `0xFFFF`.
    pub fn provide_input(&mut self, value: Option<u8>)
        ensures
            final(self)@ == (Machine {
                input: Some(
                    match value {
                        Some(b) => b as u16,
                        None => NO_INPUT,
                    },
                ),
                ..old(self)@
            }),
    {
        self.standard_input = Some(
            match value {
                Some(b) => b as u16,
                None => NO_INPUT,
            },
        );
    }

    /// Takes the bytes written to the standard output port since the last call, oldest
    /// first.
    pub fn take_output(&mut self) -> (r: Vec<u8>)
        ensures
            r@ == old(self)@.output,
            final(self)@ == (Machine { output: Seq::empty(), ..old(self)@ }),
    {
        let mut out = Vec::new();
        std::mem::swap(&mut out, &mut self.standard_output);
        out
    }
}

impl System {
    /// Returns the value of the specified 8-bit register.
    pub fn get_regb(&self, reg: ByteRegister) -> (r: u8)
        ensures
            r == self@.regb(reg),
    {
        match reg {
            ByteRegister::H => self.reg_h,
            ByteRegister::A => self.reg_a,
            ByteRegister::B => self.reg_b,
            ByteRegister::C => self.reg_c,
            ByteRegister::X => self.reg_x,
            ByteRegister::L => self.reg_l,
            ByteRegister::M => self.reg_m,
            ByteRegister::N => self.reg_n,
        }
    }

    /// Sets the value of the specified 8-bit register.
    pub fn set_regb(&mut self, reg: ByteRegister, value: u8)
        ensures
            final(self)@ == old(self)@.with_regb(reg, value),
    {
        match reg {
            ByteRegister::H => self.reg_h = value,
            ByteRegister::A => self.reg_a = value,
            ByteRegister::B => self.reg_b = value,
            ByteRegister::C => self.reg_c = value,
            ByteRegister::X => self.reg_x = value,
            ByteRegister::L => self.reg_l = value,
            ByteRegister::M => self.reg_m = value,
            ByteRegister::N => self.reg_n = value,
        }
    }

    /// Returns the value of the specified 16-bit register; a register pair has its
    /// first register as the high byte.
    pub fn get_regw(&self, reg: WordRegister) -> (r: u16)
        ensures
            r == self@.regw(reg),
    {
        match reg {
            WordRegister::HA => self.reg_h as u16 * 256 + self.reg_a as u16,
            WordRegister::BC => self.reg_b as u16 * 256 + self.reg_c as u16,
            WordRegister::XL => self.reg_x as u16 * 256 + self.reg_l as u16,
            WordRegister::MN => self.reg_m as u16 * 256 + self.reg_n as u16,
            WordRegister::R4 => self.reg_r4,
            WordRegister::SP => self.reg_sp,
            WordRegister::FL => self.reg_fl,
            WordRegister::PC => self.reg_pc,
        }
    }

    /// Sets the value of the specified 16-bit register; a register pair gets the high
    /// byte in its first register.
    pub fn set_regw(&mut self, reg: WordRegister, value: u16)
        ensures
            final(self)@ == old(self)@.with_regw(reg, value),
    {
        let hi = (value / 256) as u8;
        let lo = (value % 256) as u8;
        match reg {
            WordRegister::HA => {
                self.reg_h = hi;
                self.reg_a = lo;
            },
            WordRegister::BC => {
                self.reg_b = hi;
                self.reg_c = lo;
            },
            WordRegister::XL => {
                self.reg_x = hi;
                self.reg_l = lo;
            },
            WordRegister::MN => {
                self.reg_m = hi;
                self.reg_n = lo;
            },
            WordRegister::R4 => self.reg_r4 = value,
            WordRegister::SP => self.reg_sp = value,
            WordRegister::FL => self.reg_fl = value,
            WordRegister::PC => self.reg_pc = value,
        }
    }

    fn get_direct_mem(&self, addr: u16) -> (r: Result<u8, SystemError>)
        ensures
            r == self@.read_direct(addr),
    {
        if (addr as usize) < RAM_SIZE {
            Ok(self.ram[addr as usize])
        } else {
            let index = addr as usize - RAM_SIZE + self.ram[PAGE_SELECT as usize] as usize * ROM_PAGE_SIZE;
            if index < self.rom.len() {
                Ok(self.rom[index])
            } else {
                Err(SystemError::ReadOutOfRomBounds)
            }
        }
    }

    fn set_direct_mem(&mut self, addr: u16, value: u8) -> (r: Result<(), SystemError>)
        ensures
            (final(self)@, r) == old(self)@.write_direct(addr, value),
    {
        if (addr as usize) < RAM_SIZE {
            self.ram[addr as usize] = value;
            Ok(())
        } else {
            Err(SystemError::WriteToRom)
        }
    }

    fn get_mmio(&mut self, addr: u16) -> (r: Result<u16, SystemError>)
        requires
            Machine::is_read_port(addr),
        ensures
            (final(self)@, r) == old(self)@.read_port(addr),
    {
        if addr == STDIO_PORT {
            match self.standard_input {
                Some(v) => {
                    self.standard_input = None;
                    Ok(v)
                },
                None => Err(SystemError::InputUnavailable),
            }
        } else if addr == WINDOW_INPUT_PORT {
            match self.text_input_buffer.pop_front() {
                Some(byte) => Ok(byte as u16),
                None => Ok(NO_INPUT),
            }
        } else if addr == VRAM_POINTER_PORT {
            Ok(self.vram_pointer)
        } else if addr == VRAM_BYTE_PORT {
            Ok(self.vram[self.vram_pointer as usize] as u16)
        } else {
            let hi = self.vram[self.vram_pointer as usize];
            let lo = self.vram[self.vram_pointer.wrapping_add(1) as usize];
            Ok(hi as u16 * 256 + lo as u16)
        }
    }

    fn set_mmio(&mut self, addr: u16, value: u16)
        requires
            Machine::is_write_port(addr),
        ensures
            final(self)@ == old(self)@.write_port(addr, value),
    {
        let p = self.vram_pointer;
        if addr == STDIO_PORT {
            self.standard_output.push((value % 256) as u8);
        } else if addr == VRAM_POINTER_PORT {
            self.vram_pointer = value;
        } else if addr == VRAM_BYTE_PORT {
            self.vram[p as usize] = (value % 256) as u8;
            self.vram_pointer = p.wrapping_add(1);
        } else {
            self.vram[p as usize] = (value / 256) as u8;
            self.vram[p.wrapping_add(1) as usize] = (value % 256) as u8;
            self.vram_pointer = p.wrapping_add(2);
        }
    }

    fn is_read_port(addr: u16) -> (r: bool)
        ensures
            r == Machine::is_read_port(addr),
    {
        addr == STDIO_PORT || addr == WINDOW_INPUT_PORT || addr == VRAM_POINTER_PORT
            || addr == VRAM_BYTE_PORT || addr == VRAM_WORD_PORT
    }

    fn is_write_port(addr: u16) -> (r: bool)
        ensures
            r == Machine::is_write_port(addr),
    {
        addr == STDIO_PORT || addr == VRAM_POINTER_PORT || addr == VRAM_BYTE_PORT
            || addr == VRAM_WORD_PORT
    }

    /// Returns the value of the memory at the specified address. A memory-mapped port
    /// gives the low byte of its value; reading an input port consumes its input.
    ///
    /// # Errors
    ///
    /// Returns [`SystemError::ReadOutOfRomBounds`] if the address is out of bounds for
    /// the ROM, and [`SystemError::InputUnavailable`] if standard input is read before
    /// the host supplied a value.
    pub fn get_memb(&mut self, addr: u16) -> (r: Result<u8, SystemError>)
        ensures
            (final(self)@, r) == old(self)@.read_byte(addr),
    {
        if System::is_read_port(addr) {
            match self.get_mmio(addr) {
                Ok(x) => Ok((x % 256) as u8),
                Err(e) => Err(e),
            }
        } else {
            self.get_direct_mem(addr)
        }
    }

    /// Sets the value of the memory at the specified address.
    ///
    /// # Errors
    ///
    /// Returns [`SystemError::WriteToRom`] if the address is in ROM.
    pub fn set_memb(&mut self, addr: u16, value: u8) -> (r: Result<(), SystemError>)
        ensures
            (final(self)@, r) == old(self)@.write_byte(addr, value),
    {
        if System::is_write_port(addr) {
            self.set_mmio(addr, value as u16);
            Ok(())
        } else {
            self.set_direct_mem(addr, value)
        }
    }

    /// Returns the big-endian 16-bit word of memory at the specified address. A
    /// memory-mapped port gives its whole value.
    ///
    /// # Errors
    ///
    /// Returns [`SystemError::ReadOutOfRomBounds`] if the address is out of bounds for
    /// the ROM, and [`SystemError::InputUnavailable`] if standard input is read before
    /// the host supplied a value.
    pub fn get_memw(&mut self, addr: u16) -> (r: Result<u16, SystemError>)
        ensures
            (final(self)@, r) == old(self)@.read_word(addr),
    {
        if System::is_read_port(addr) {
            self.get_mmio(addr)
        } else {
            let hi = match self.get_direct_mem(addr) {
                Ok(v) => v,
                Err(e) => return Err(e),
            };
            let lo = match self.get_direct_mem(addr.wrapping_add(1)) {
                Ok(v) => v,
                Err(e) => return Err(e),
            };
            Ok(hi as u16 * 256 + lo as u16)
        }
    }

    /// Sets the big-endian 16-bit word of memory at the specified address.
    ///
    /// # Errors
    ///
    /// Returns [`SystemError::WriteToRom`] if either byte is in ROM; a high byte in RAM
    /// is written before the error.
    pub fn set_memw(&mut self, addr: u16, value: u16) -> (r: Result<(), SystemError>)
        ensures
            (final(self)@, r) == old(self)@.write_word(addr, value),
    {
        if System::is_write_port(addr) {
            self.set_mmio(addr, value);
            Ok(())
        } else {
            match self.set_direct_mem(addr, (value / 256) as u8) {
                Ok(()) => {},
                Err(e) => return Err(e),
            }
            self.set_direct_mem(addr.wrapping_add(1), (value % 256) as u8)
        }
    }
}

} // verus!
