//! Execution: condition codes, the ALU, and running instructions.

use vstd::prelude::*;

use vstd::arithmetic::power2::{lemma2_to64, pow2};

use crate::alu::{
    alu_flags, binary_outcome, binary_outcome_exec, lemma_alu_flags_bits, pow2_exec, unary_outcome, unary_outcome_exec,
    valid_width,
};
use crate::opcode::{
    lemma_to_vec_len, lo_byte, spec_from_slice, AluBinaryOperation, AluUnaryOperation, ConditionCode, Opcode,
};
use crate::register::{ByteRegister, WordRegister};
use crate::system::{gpu, Machine, System, SystemError, SP_START, STDIO_PORT};

verus! {

/// The operation the system performed during a step.
#[derive(Clone, Copy, Debug, PartialEq, Eq)]
pub enum SystemStep {
    /// The system ran an instruction.
    RanInstruction(Opcode),
    /// The system handled an interrupt.
    Interrupt(u16),
    /// The next instruction reads standard input, and the host has not supplied the
    /// value yet: nothing was changed.
    NeedsInput,
}

/// The address of the V-Blank interrupt vector.
pub const VBLANK_VECTOR: u16 = 0x7FF0;

impl Machine {
    /// The zero flag (bit 0 of FL).
    pub open spec fn zf(self) -> bool {
        self.fl % 2 == 1
    }

    /// The carry flag (bit 1 of FL).
    pub open spec fn cf(self) -> bool {
        (self.fl / 2) % 2 == 1
    }

    /// The sign flag (bit 2 of FL).
    pub open spec fn sf(self) -> bool {
        (self.fl / 4) % 2 == 1
    }

    /// The overflow flag (bit 3 of FL).
    pub open spec fn of(self) -> bool {
        (self.fl / 8) % 2 == 1
    }

    /// Whether a condition holds for the current flags.
    pub open spec fn condition(self, cc: ConditionCode) -> bool {
        match cc {
            ConditionCode::Z => self.zf(),
            ConditionCode::C => self.cf(),
            ConditionCode::S => self.sf(),
            ConditionCode::O => self.of(),
            ConditionCode::LE => (self.of() != self.sf()) || self.zf(),
            ConditionCode::BE => self.cf() || self.zf(),
            ConditionCode::L => self.of() != self.sf(),
            ConditionCode::False => false,
            ConditionCode::NZ => !self.zf(),
            ConditionCode::NC => !self.cf(),
            ConditionCode::NS => !self.sf(),
            ConditionCode::NO => !self.of(),
            ConditionCode::G => !((self.of() != self.sf()) || self.zf()),
            ConditionCode::A => !(self.cf() || self.zf()),
            ConditionCode::GE => self.of() == self.sf(),
            ConditionCode::True => true,
        }
    }

    /// A binary ALU operation on `w`-bit operands: the state with the flags set, and
    /// the result.
    pub open spec fn alu_binary(self, op: AluBinaryOperation, lhs: u16, rhs: u16, w: nat) -> (
        Machine,
        u16,
    ) {
        let (v, cf, of) = binary_outcome(op, lhs, rhs, self.cf(), w);
        (Machine { fl: alu_flags(self.fl, v, cf, of, w), ..self }, v as u16)
    }

    /// A unary ALU operation on a `w`-bit operand: the state with the flags set, and
    /// the result (0 for `ZERO`).
    pub open spec fn alu_unary(self, op: AluUnaryOperation, v: u16, w: nat) -> (Machine, u16) {
        let (r, cf, of) = unary_outcome(op, v, self.cf(), w);
        (
            Machine { fl: alu_flags(self.fl, r, cf, of, w), ..self },
            if op == AluUnaryOperation::Zero {
                0
            } else {
                r as u16
            },
        )
    }

    /// The address `offset` bytes from the value of `base`, wrapping around.
    pub open spec fn offset_address(self, base: WordRegister, offset: i8) -> u16 {
        self.regw(base).wrapping_add_signed(offset as i16)
    }

    /// The flags register after a bit test: ZF is set when the tested bit is clear.
    pub open spec fn test_bit_flags(self, bit_clear: bool) -> u16 {
        (self.fl - self.fl % 2 + if bit_clear {
            1int
        } else {
            0
        }) as u16
    }

    /// Loads a byte of memory into a register.
    pub open spec fn load_byte(self, addr: u16, d: ByteRegister) -> (
        Machine,
        Result<(), SystemError>,
    ) {
        let (m, r) = self.read_byte(addr);
        match r {
            Ok(v) => (m.with_regb(d, v), Ok(())),
            Err(e) => (m, Err(e)),
        }
    }

    /// Loads a word of memory into a register.
    pub open spec fn load_word(self, addr: u16, d: WordRegister) -> (
        Machine,
        Result<(), SystemError>,
    ) {
        let (m, r) = self.read_word(addr);
        match r {
            Ok(v) => (m.with_regw(d, v), Ok(())),
            Err(e) => (m, Err(e)),
        }
    }

    /// Adds `n` cycles after a memory access that succeeded; a failed one is left as
    /// it is.
    pub open spec fn then_tick(access: (Machine, Result<(), SystemError>), n: u64) -> (
        Machine,
        Result<(), SystemError>,
    ) {
        match access.1 {
            Ok(_) => (access.0.tick(n), Ok(())),
            Err(e) => (access.0, Err(e)),
        }
    }

    /// Executes an instruction whose bytes have already been skipped by PC. `len` is
    /// the length of the instruction; a conditional instruction takes `len + 2` cycles
    /// when its condition holds and `len + 1` when it does not.
    #[verifier::opaque]
    pub open spec fn execute(self, opcode: Opcode) -> (Machine, Result<(), SystemError>) {
        let len = opcode.spec_len() as u64;
        let taken = (len + 2) as u64;
        let plain = (len + 1) as u64;
        match opcode {
            Opcode::MovRIB(d, imm) => (self.with_regb(d, imm).tick(plain), Ok(())),
            Opcode::MovRIW(d, imm) => (self.with_regw(d, imm).tick(plain), Ok(())),
            Opcode::MovCcRRB(cc, d, s) => if self.condition(cc) {
                (self.with_regb(d, self.regb(s)).tick(taken), Ok(()))
            } else {
                (self.tick(plain), Ok(()))
            },
            Opcode::MovCcRRW(cc, d, s) => if self.condition(cc) {
                (self.with_regw(d, self.regw(s)).tick(taken), Ok(()))
            } else {
                (self.tick(plain), Ok(()))
            },
            Opcode::XchCcRRB(cc, d, s) => if self.condition(cc) {
                (self.with_regb(d, self.regb(s)).with_regb(s, self.regb(d)).tick(taken), Ok(()))
            } else {
                (self.tick(plain), Ok(()))
            },
            Opcode::XchCcRRW(cc, d, s) => if self.condition(cc) {
                (self.with_regw(d, self.regw(s)).with_regw(s, self.regw(d)).tick(taken), Ok(()))
            } else {
                (self.tick(plain), Ok(()))
            },
            Opcode::MovRAB(d, addr) => self.tick(plain).load_byte(addr, d),
            Opcode::MovRAW(d, addr) => self.tick(plain).load_word(addr, d),
            Opcode::MovCcROB(cc, d, off, base) => if self.condition(cc) {
                Machine::then_tick(self.load_byte(self.offset_address(base, off), d), taken)
            } else {
                (self.tick(plain), Ok(()))
            },
            Opcode::MovCcROW(cc, d, off, base) => if self.condition(cc) {
                Machine::then_tick(self.load_word(self.offset_address(base, off), d), taken)
            } else {
                (self.tick(plain), Ok(()))
            },
            Opcode::LeaCcROB(cc, d, off, base) => if self.condition(cc) {
                (self.with_regb(d, lo_byte(self.offset_address(base, off))).tick(taken), Ok(()))
            } else {
                (self.tick(plain), Ok(()))
            },
            Opcode::LeaCcROW(cc, d, off, base) => if self.condition(cc) {
                (self.with_regw(d, self.offset_address(base, off)).tick(taken), Ok(()))
            } else {
                (self.tick(plain), Ok(()))
            },
            Opcode::JmpCcA(cc, addr) => if self.condition(cc) {
                (self.with_regw(WordRegister::PC, addr).tick(taken), Ok(()))
            } else {
                (self.tick(plain), Ok(()))
            },
            Opcode::CallCcA(cc, addr) => if self.condition(cc) {
                let sp = self.sp.wrapping_sub(2);
                let (m, r) = self.write_word(sp, self.pc);
                match r {
                    Ok(_) => (
                        m.with_regw(WordRegister::SP, sp).with_regw(WordRegister::PC, addr).tick(
                            taken,
                        ),
                        Ok(()),
                    ),
                    Err(e) => (m, Err(e)),
                }
            } else {
                (self.tick(plain), Ok(()))
            },
            Opcode::MovARB(addr, s) => Machine::then_tick(self.write_byte(addr, self.regb(s)), plain),
            Opcode::MovARW(addr, s) => Machine::then_tick(self.write_word(addr, self.regw(s)), plain),
            Opcode::MovCcORB(cc, off, base, s) => if self.condition(cc) {
                Machine::then_tick(
                    self.write_byte(self.offset_address(base, off), self.regb(s)),
                    taken,
                )
            } else {
                (self.tick(plain), Ok(()))
            },
            Opcode::MovCcORW(cc, off, base, s) => if self.condition(cc) {
                Machine::then_tick(
                    self.write_word(self.offset_address(base, off), self.regw(s)),
                    taken,
                )
            } else {
                (self.tick(plain), Ok(()))
            },
            Opcode::AlubRRB(op, d, s) => {
                let (m, v) = self.alu_binary(op, self.regb(d) as u16, self.regb(s) as u16, 8);
                (m.with_regb(d, v as u8).tick(plain), Ok(()))
            },
            Opcode::AlubRRW(op, d, s) => {
                let (m, v) = self.alu_binary(op, self.regw(d), self.regw(s), 16);
                (m.with_regw(d, v).tick(plain), Ok(()))
            },
            Opcode::AlubRIB(op, d, imm) => {
                let (m, v) = self.alu_binary(op, self.regb(d) as u16, imm as u16, 8);
                (m.with_regb(d, v as u8).tick(plain), Ok(()))
            },
            Opcode::AlubRIW(op, d, imm) => {
                let (m, v) = self.alu_binary(op, self.regw(d), imm, 16);
                (m.with_regw(d, v).tick(plain), Ok(()))
            },
            Opcode::AluuRB(op, d) => {
                let (m, v) = self.alu_unary(op, self.regb(d) as u16, 8);
                (m.with_regb(d, v as u8).tick(plain), Ok(()))
            },
            Opcode::AluuRW(op, d) => {
                let (m, v) = self.alu_unary(op, self.regw(d), 16);
                (m.with_regw(d, v).tick(plain), Ok(()))
            },
            Opcode::CpAlubRRB(op, d, s) => (
                self.alu_binary(op, self.regb(d) as u16, self.regb(s) as u16, 8).0.tick(plain),
                Ok(()),
            ),
            Opcode::CpAlubRRW(op, d, s) => (
                self.alu_binary(op, self.regw(d), self.regw(s), 16).0.tick(plain),
                Ok(()),
            ),
            Opcode::CpAlubRIB(op, d, imm) => (
                self.alu_binary(op, self.regb(d) as u16, imm as u16, 8).0.tick(plain),
                Ok(()),
            ),
            Opcode::CpAlubRIW(op, d, imm) => (
                self.alu_binary(op, self.regw(d), imm, 16).0.tick(plain),
                Ok(()),
            ),
            Opcode::CpAluuRB(op, d) => (
                self.alu_unary(op, self.regb(d) as u16, 8).0.tick(plain),
                Ok(()),
            ),
            Opcode::CpAluuRW(op, d) => (self.alu_unary(op, self.regw(d), 16).0.tick(plain), Ok(())),
            Opcode::JrCcX(cc, off) => if self.condition(cc) {
                (
                    self.with_regw(WordRegister::PC, self.pc.wrapping_add_signed(off as i16)).tick(
                        taken,
                    ),
                    Ok(()),
                )
            } else {
                (self.tick(plain), Ok(()))
            },
            Opcode::PushRB(s) => {
                let sp = self.sp.wrapping_sub(1);
                let (m, r) = self.write_byte(sp, self.regb(s));
                match r {
                    Ok(_) => (m.with_regw(WordRegister::SP, sp).tick(plain), Ok(())),
                    Err(e) => (m, Err(e)),
                }
            },
            Opcode::PushRW(s) => {
                let sp = self.sp.wrapping_sub(2);
                let (m, r) = self.write_word(sp, self.regw(s));
                match r {
                    Ok(_) => (m.with_regw(WordRegister::SP, sp).tick(plain), Ok(())),
                    Err(e) => (m, Err(e)),
                }
            },
            Opcode::PopRB(d) => if self.sp >= SP_START {
                (self.halt().tick(plain), Ok(()))
            } else {
                let (m, r) = self.read_byte(self.sp);
                match r {
                    Ok(v) => (
                        m.with_regb(d, v).with_regw(WordRegister::SP, self.sp.wrapping_add(1)).tick(
                            plain,
                        ),
                        Ok(()),
                    ),
                    Err(e) => (m, Err(e)),
                }
            },
            Opcode::PopRW(d) => if self.sp >= SP_START {
                (self.halt().tick(plain), Ok(()))
            } else {
                let (m, r) = self.read_word(self.sp);
                match r {
                    Ok(v) => (
                        m.with_regw(d, v).with_regw(WordRegister::SP, self.sp.wrapping_add(2)).tick(
                            plain,
                        ),
                        Ok(()),
                    ),
                    Err(e) => (m, Err(e)),
                }
            },
            Opcode::ClbRIB(d, bit) => (
                self.with_regb(d, self.regb(d) & !(1u8 << (bit % 8))).tick(plain),
                Ok(()),
            ),
            Opcode::ClbRIW(d, bit) => (
                self.with_regw(d, self.regw(d) & !(1u16 << (bit % 16))).tick(plain),
                Ok(()),
            ),
            Opcode::ClbRRB(d, br) => (
                self.with_regb(d, self.regb(d) & !(1u8 << (self.regb(br) % 8))).tick(plain),
                Ok(()),
            ),
            Opcode::ClbRRW(d, br) => (
                self.with_regw(d, self.regw(d) & !(1u16 << (self.regb(br) % 16))).tick(plain),
                Ok(()),
            ),
            Opcode::StbRIB(d, bit) => (
                self.with_regb(d, self.regb(d) | (1u8 << (bit % 8))).tick(plain),
                Ok(()),
            ),
            Opcode::StbRIW(d, bit) => (
                self.with_regw(d, self.regw(d) | (1u16 << (bit % 16))).tick(plain),
                Ok(()),
            ),
            Opcode::StbRRB(d, br) => (
                self.with_regb(d, self.regb(d) | (1u8 << (self.regb(br) % 8))).tick(plain),
                Ok(()),
            ),
            Opcode::StbRRW(d, br) => (
                self.with_regw(d, self.regw(d) | (1u16 << (self.regb(br) % 16))).tick(plain),
                Ok(()),
            ),
            Opcode::TgbRIB(d, bit) => (
                self.with_regb(d, self.regb(d) ^ (1u8 << (bit % 8))).tick(plain),
                Ok(()),
            ),
            Opcode::TgbRIW(d, bit) => (
                self.with_regw(d, self.regw(d) ^ (1u16 << (bit % 16))).tick(plain),
                Ok(()),
            ),
            Opcode::TgbRRB(d, br) => (
                self.with_regb(d, self.regb(d) ^ (1u8 << (self.regb(br) % 8))).tick(plain),
                Ok(()),
            ),
            Opcode::TgbRRW(d, br) => (
                self.with_regw(d, self.regw(d) ^ (1u16 << (self.regb(br) % 16))).tick(plain),
                Ok(()),
            ),
            Opcode::TbitRIB(s, bit) => (
                self.with_regw(
                    WordRegister::FL,
                    self.test_bit_flags(self.regb(s) & (1u8 << (bit % 8)) == 0),
                ).tick(plain),
                Ok(()),
            ),
            Opcode::TbitRIW(s, bit) => (
                self.with_regw(
                    WordRegister::FL,
                    self.test_bit_flags(self.regw(s) & (1u16 << (bit % 16)) == 0),
                ).tick(plain),
                Ok(()),
            ),
            Opcode::TbitRRB(s, br) => (
                self.with_regw(
                    WordRegister::FL,
                    self.test_bit_flags(self.regb(s) & (1u8 << (self.regb(br) % 8)) == 0),
                ).tick(plain),
                Ok(()),
            ),
            Opcode::TbitRRW(s, br) => (
                self.with_regw(
                    WordRegister::FL,
                    self.test_bit_flags(self.regw(s) & (1u16 << (self.regb(br) % 16)) == 0),
                ).tick(plain),
                Ok(()),
            ),
            Opcode::Nop => (self.tick(len), Ok(())),
            Opcode::Reti => if self.sp >= SP_START {
                (Machine { active_interrupt: None, ..self.halt() }.tick(plain), Ok(()))
            } else {
                let (m, r) = self.read_word(self.sp);
                match r {
                    Ok(v) => (
                        Machine {
                            active_interrupt: None,
                            ..m.with_regw(WordRegister::PC, v).with_regw(
                                WordRegister::SP,
                                self.sp.wrapping_add(2),
                            )
                        }.tick(plain),
                        Ok(()),
                    ),
                    Err(e) => (m, Err(e)),
                }
            },
            Opcode::Halt => (self.halt().tick(plain), Ok(())),
        }
    }

    /// Enters the interrupt whose vector is stored at `vector_addr`: unless an
    /// interrupt is active or the vector is zero, PC is pushed and set to the vector.
    pub open spec fn interrupt(self, vector_addr: u16) -> (Machine, Result<(), SystemError>) {
        let (m, r) = self.read_word(vector_addr);
        match r {
            Err(e) => (m, Err(e)),
            Ok(vector) => if m.active_interrupt is None && vector != 0 {
                let sp = m.sp.wrapping_sub(2);
                let m1 = Machine { active_interrupt: Some(vector_addr), sp: sp, ..m };
                let (m2, r2) = m1.write_word(sp, m1.pc);
                match r2 {
                    Err(e) => (m2, Err(e)),
                    Ok(_) => (Machine { pc: vector, ..m2 }.tick(1), Ok(())),
                }
            } else {
                (m, Ok(()))
            },
        }
    }

    /// The instruction bytes at PC, read without the memory-mapped ports: up to four,
    /// stopping at the end of the ROM.
    pub open spec fn fetch_from(self, i: nat) -> Seq<u8>
        decreases 4 - i,
    {
        if i >= 4 {
            Seq::empty()
        } else {
            match self.read_direct(self.pc.wrapping_add(i as u16)) {
                Ok(b) => seq![b] + self.fetch_from(i + 1),
                Err(_) => Seq::empty(),
            }
        }
    }

    /// The instruction bytes at PC.
    pub open spec fn fetch(self) -> Seq<u8> {
        self.fetch_from(0)
    }

    /// Whether executing the instruction reads the standard input port.
    pub open spec fn reads_standard_input(self, opcode: Opcode) -> bool {
        match opcode {
            Opcode::MovRAB(_, addr) | Opcode::MovRAW(_, addr) => addr == STDIO_PORT,
            Opcode::MovCcROB(cc, _, off, base) | Opcode::MovCcROW(cc, _, off, base) => self.condition(cc)
                && self.offset_address(base, off) == STDIO_PORT,
            _ => false,
        }
    }

    /// One step of the CPU. A halted system refuses to step. When the cycle count has
    /// reached the next V-Blank, the V-Blank interrupt is entered. Otherwise the
    /// instruction at PC is decoded, PC is moved past it, and it is executed; if it
    /// reads standard input that the host has not supplied, nothing changes and the
    /// step asks for input.
    pub open spec fn step(self) -> (Machine, Result<SystemStep, SystemError>) {
        if self.is_halted() {
            (self, Err(SystemError::Halted))
        } else if self.cycles >= self.next_vblank {
            let m = Machine { next_vblank: self.next_vblank.wrapping_add(gpu::VBLANK_INTERVAL), ..self };
            let (m2, r) = m.interrupt(VBLANK_VECTOR);
            match r {
                Ok(_) => (m2, Ok(SystemStep::Interrupt(VBLANK_VECTOR))),
                Err(e) => (m2, Err(e)),
            }
        } else {
            self.step_instruction()
        }
    }

    /// Decodes the instruction at PC, moves PC past it and executes it; if it reads
    /// standard input that the host has not supplied, nothing changes and the step
    /// asks for input.
    pub open spec fn step_instruction(self) -> (Machine, Result<SystemStep, SystemError>) {
        match spec_from_slice(self.fetch()) {
            Err(e) => (self, Err(SystemError::InvalidOpcodeError(e))),
            Ok(opcode) => self.run_decoded(opcode),
        }
    }

    /// Moves PC past a decoded instruction and executes it; if it reads standard input
    /// that the host has not supplied, nothing changes and the step asks for input.
    pub open spec fn run_decoded(self, opcode: Opcode) -> (
        Machine,
        Result<SystemStep, SystemError>,
    ) {
        let m = self.with_regw(WordRegister::PC, self.pc.wrapping_add(opcode.spec_len() as u16));
        if m.reads_standard_input(opcode) && self.input is None {
            (self, Ok(SystemStep::NeedsInput))
        } else {
            let (m2, r) = m.execute(opcode);
            match r {
                Ok(_) => (m2, Ok(SystemStep::RanInstruction(opcode))),
                Err(e) => (m2, Err(e)),
            }
        }
    }
}

impl System {
    /// Checks a condition code against the current state of the system's flags.
    pub fn condition(&self, cc: ConditionCode) -> (r: bool)
        ensures
            r == self@.condition(cc),
    {
        let flags = self.reg_fl;
        let zf = flags % 2 == 1;
        let cf = (flags / 2) % 2 == 1;
        let sf = (flags / 4) % 2 == 1;
        let of = (flags / 8) % 2 == 1;
        match cc {
            ConditionCode::Z => zf,
            ConditionCode::C => cf,
            ConditionCode::S => sf,
            ConditionCode::O => of,
            ConditionCode::LE => (of != sf) || zf,
            ConditionCode::BE => cf || zf,
            ConditionCode::L => of != sf,
            ConditionCode::False => false,
            ConditionCode::NZ => !zf,
            ConditionCode::NC => !cf,
            ConditionCode::NS => !sf,
            ConditionCode::NO => !of,
            ConditionCode::G => !((of != sf) || zf),
            ConditionCode::A => !(cf || zf),
            ConditionCode::GE => of == sf,
            ConditionCode::True => true,
        }
    }
}

impl System {
    /// Sets ZF, CF, SF and OF after an ALU operation that gave `value`.
    fn set_alu_flags(&mut self, value: u16, carry: bool, overflow: bool, w: u32)
        requires
            valid_width(w as nat),
            value < pow2(w as nat),
        ensures
            final(self)@ == (Machine {
                fl: alu_flags(old(self)@.fl, value as int, carry, overflow, w as nat),
                ..old(self)@
            }),
    {
        let half = pow2_exec(w - 1);
        let fl = self.reg_fl;
        let zf: u16 = if value == 0 {
            1
        } else {
            0
        };
        let cf: u16 = if carry {
            2
        } else {
            0
        };
        let sf: u16 = if value as u32 >= half {
            4
        } else {
            0
        };
        let of: u16 = if overflow {
            8
        } else {
            0
        };
        self.reg_fl = fl - fl % 16 + zf + cf + sf + of;
    }

    /// Calculates a binary ALU operation on two 8-bit operands, updating the system's
    /// flags accordingly.
    pub fn alu_binaryb(&mut self, op: AluBinaryOperation, lhs: u8, rhs: u8) -> (r: u8)
        ensures
            (final(self)@, r as u16) == old(self)@.alu_binary(op, lhs as u16, rhs as u16, 8),
            final(self)@.zf() == (r == 0),
            final(self)@.sf() == (r >= 0x80),
            final(self)@.fl / 16 == old(self)@.fl / 16,
    {
        proof {
            lemma2_to64();
        }
        let carry = (self.reg_fl / 2) % 2 == 1;
        let (value, cf, of) = binary_outcome_exec(op, lhs as u16, rhs as u16, carry, 8);
        proof {
            lemma_alu_flags_bits(self.reg_fl, value as int, cf, of, 8);
        }
        self.set_alu_flags(value, cf, of, 8);
        value as u8
    }

    /// Calculates a binary ALU operation on two 16-bit operands, updating the system's
    /// flags accordingly.
    pub fn alu_binaryw(&mut self, op: AluBinaryOperation, lhs: u16, rhs: u16) -> (r: u16)
        ensures
            (final(self)@, r) == old(self)@.alu_binary(op, lhs, rhs, 16),
            final(self)@.zf() == (r == 0),
            final(self)@.sf() == (r >= 0x8000),
            final(self)@.fl / 16 == old(self)@.fl / 16,
    {
        proof {
            lemma2_to64();
        }
        let carry = (self.reg_fl / 2) % 2 == 1;
        let (value, cf, of) = binary_outcome_exec(op, lhs, rhs, carry, 16);
        proof {
            lemma_alu_flags_bits(self.reg_fl, value as int, cf, of, 16);
        }
        self.set_alu_flags(value, cf, of, 16);
        value
    }

    /// Calculates a unary ALU operation on an 8-bit operand, updating the system's
    /// flags accordingly.
    pub fn alu_unaryb(&mut self, op: AluUnaryOperation, value: u8) -> (r: u8)
        ensures
            (final(self)@, r as u16) == old(self)@.alu_unary(op, value as u16, 8),
            op != AluUnaryOperation::Zero ==> final(self)@.zf() == (r == 0) && final(self)@.sf() == (
            r >= 0x80),
            op == AluUnaryOperation::Zero ==> r == 0 && final(self)@.zf() == (value == 0)
                && final(self)@.sf() == (value >= 0x80),
            op == AluUnaryOperation::Inc || op == AluUnaryOperation::Dec ==> final(self)@.cf()
                == old(self)@.cf(),
            final(self)@.fl / 16 == old(self)@.fl / 16,
    {
        proof {
            lemma2_to64();
        }
        let carry = (self.reg_fl / 2) % 2 == 1;
        let (result, cf, of) = unary_outcome_exec(op, value as u16, carry, 8);
        proof {
            lemma_alu_flags_bits(self.reg_fl, result as int, cf, of, 8);
        }
        self.set_alu_flags(result, cf, of, 8);
        if op == AluUnaryOperation::Zero {
            0
        } else {
            result as u8
        }
    }

    /// Calculates a unary ALU operation on a 16-bit operand, updating the system's
    /// flags accordingly.
    pub fn alu_unaryw(&mut self, op: AluUnaryOperation, value: u16) -> (r: u16)
        ensures
            (final(self)@, r) == old(self)@.alu_unary(op, value, 16),
            op != AluUnaryOperation::Zero ==> final(self)@.zf() == (r == 0) && final(self)@.sf() == (
            r >= 0x8000),
            op == AluUnaryOperation::Zero ==> r == 0 && final(self)@.zf() == (value == 0)
                && final(self)@.sf() == (value >= 0x8000),
            op == AluUnaryOperation::Inc || op == AluUnaryOperation::Dec ==> final(self)@.cf()
                == old(self)@.cf(),
            final(self)@.fl / 16 == old(self)@.fl / 16,
    {
        proof {
            lemma2_to64();
        }
        let carry = (self.reg_fl / 2) % 2 == 1;
        let (result, cf, of) = unary_outcome_exec(op, value, carry, 16);
        proof {
            lemma_alu_flags_bits(self.reg_fl, result as int, cf, of, 16);
        }
        self.set_alu_flags(result, cf, of, 16);
        if op == AluUnaryOperation::Zero {
            0
        } else {
            result
        }
    }
}


impl System {
    /// Adds `n` cycles to the cycle counter, wrapping around.
    fn add_cycles(&mut self, n: u64)
        ensures
            final(self)@ == old(self)@.tick(n),
    {
        self.cycles = self.cycles.wrapping_add(n);
    }

    /// The address `offset` bytes from the value of `base`.
    fn offset_address(&self, base: WordRegister, offset: i8) -> (r: u16)
        ensures
            r == self@.offset_address(base, offset),
    {
        self.get_regw(base).wrapping_add_signed(offset as i16)
    }

    /// Runs a move between registers, a jump, or a load of an effective address.
    fn run_register_move(&mut self, opcode: Opcode, len: u64) -> (r: Result<(), SystemError>)
        requires
            len == opcode.spec_len(),
            opcode is MovRIB || opcode is MovRIW || opcode is MovCcRRB || opcode is MovCcRRW
                || opcode is XchCcRRB || opcode is XchCcRRW || opcode is LeaCcROB
                || opcode is LeaCcROW || opcode is JmpCcA || opcode is JrCcX,
        ensures
            (final(self)@, r) == old(self)@.execute(opcode),
    {
        reveal(Machine::execute);
        match opcode {
            Opcode::MovRIB(d, imm) => {
                self.set_regb(d, imm);
                self.add_cycles(len + 1);
            },
            Opcode::MovRIW(d, imm) => {
                self.set_regw(d, imm);
                self.add_cycles(len + 1);
            },
            Opcode::MovCcRRB(cc, d, s) => {
                if self.condition(cc) {
                    let v = self.get_regb(s);
                    self.set_regb(d, v);
                    self.add_cycles(len + 2);
                } else {
                    self.add_cycles(len + 1);
                }
            },
            Opcode::MovCcRRW(cc, d, s) => {
                if self.condition(cc) {
                    let v = self.get_regw(s);
                    self.set_regw(d, v);
                    self.add_cycles(len + 2);
                } else {
                    self.add_cycles(len + 1);
                }
            },
            Opcode::XchCcRRB(cc, d, s) => {
                if self.condition(cc) {
                    let a = self.get_regb(d);
                    let b = self.get_regb(s);
                    self.set_regb(d, b);
                    self.set_regb(s, a);
                    self.add_cycles(len + 2);
                } else {
                    self.add_cycles(len + 1);
                }
            },
            Opcode::XchCcRRW(cc, d, s) => {
                if self.condition(cc) {
                    let a = self.get_regw(d);
                    let b = self.get_regw(s);
                    self.set_regw(d, b);
                    self.set_regw(s, a);
                    self.add_cycles(len + 2);
                } else {
                    self.add_cycles(len + 1);
                }
            },
            Opcode::LeaCcROB(cc, d, off, base) => {
                if self.condition(cc) {
                    let addr = self.offset_address(base, off);
                    self.set_regb(d, (addr % 256) as u8);
                    self.add_cycles(len + 2);
                } else {
                    self.add_cycles(len + 1);
                }
            },
            Opcode::LeaCcROW(cc, d, off, base) => {
                if self.condition(cc) {
                    let addr = self.offset_address(base, off);
                    self.set_regw(d, addr);
                    self.add_cycles(len + 2);
                } else {
                    self.add_cycles(len + 1);
                }
            },
            Opcode::JmpCcA(cc, addr) => {
                if self.condition(cc) {
                    self.set_regw(WordRegister::PC, addr);
                    self.add_cycles(len + 2);
                } else {
                    self.add_cycles(len + 1);
                }
            },
            Opcode::JrCcX(cc, off) => {
                if self.condition(cc) {
                    let pc = self.get_regw(WordRegister::PC);
                    self.set_regw(WordRegister::PC, pc.wrapping_add_signed(off as i16));
                    self.add_cycles(len + 2);
                } else {
                    self.add_cycles(len + 1);
                }
            },
            _ => {
                assert(false);
            },
        }
        Ok(())
    }
}


impl System {
    /// Runs a load of a register from memory.
    fn run_load(&mut self, opcode: Opcode, len: u64) -> (r: Result<(), SystemError>)
        requires
            len == opcode.spec_len(),
            opcode is MovRAB || opcode is MovRAW || opcode is MovCcROB || opcode is MovCcROW,
        ensures
            (final(self)@, r) == old(self)@.execute(opcode),
    {
        reveal(Machine::execute);
        match opcode {
            Opcode::MovRAB(d, addr) => {
                self.add_cycles(len + 1);
                let v = match self.get_memb(addr) {
                    Ok(v) => v,
                    Err(e) => return Err(e),
                };
                self.set_regb(d, v);
            },
            Opcode::MovRAW(d, addr) => {
                self.add_cycles(len + 1);
                let v = match self.get_memw(addr) {
                    Ok(v) => v,
                    Err(e) => return Err(e),
                };
                self.set_regw(d, v);
            },
            Opcode::MovCcROB(cc, d, off, base) => {
                if self.condition(cc) {
                    let addr = self.offset_address(base, off);
                    let v = match self.get_memb(addr) {
                        Ok(v) => v,
                        Err(e) => return Err(e),
                    };
                    self.set_regb(d, v);
                    self.add_cycles(len + 2);
                } else {
                    self.add_cycles(len + 1);
                }
            },
            Opcode::MovCcROW(cc, d, off, base) => {
                if self.condition(cc) {
                    let addr = self.offset_address(base, off);
                    let v = match self.get_memw(addr) {
                        Ok(v) => v,
                        Err(e) => return Err(e),
                    };
                    self.set_regw(d, v);
                    self.add_cycles(len + 2);
                } else {
                    self.add_cycles(len + 1);
                }
            },
            _ => {
                assert(false);
            },
        }
        Ok(())
    }

    /// Runs a store of a register to memory.
    #[verifier::rlimit(40)]
    fn run_store(&mut self, opcode: Opcode, len: u64) -> (r: Result<(), SystemError>)
        requires
            len == opcode.spec_len(),
            opcode is MovARB || opcode is MovARW || opcode is MovCcORB || opcode is MovCcORW,
        ensures
            (final(self)@, r) == old(self)@.execute(opcode),
    {
        reveal(Machine::execute);
        match opcode {
            Opcode::MovARB(addr, s) => {
                let v = self.get_regb(s);
                match self.set_memb(addr, v) {
                    Ok(()) => {},
                    Err(e) => return Err(e),
                }
                self.add_cycles(len + 1);
            },
            Opcode::MovARW(addr, s) => {
                let v = self.get_regw(s);
                match self.set_memw(addr, v) {
                    Ok(()) => {},
                    Err(e) => return Err(e),
                }
                self.add_cycles(len + 1);
            },
            Opcode::MovCcORB(cc, off, base, s) => {
                if self.condition(cc) {
                    let addr = self.offset_address(base, off);
                    let v = self.get_regb(s);
                    match self.set_memb(addr, v) {
                        Ok(()) => {},
                        Err(e) => return Err(e),
                    }
                    self.add_cycles(len + 2);
                } else {
                    self.add_cycles(len + 1);
                }
            },
            Opcode::MovCcORW(cc, off, base, s) => {
                if self.condition(cc) {
                    let addr = self.offset_address(base, off);
                    let v = self.get_regw(s);
                    match self.set_memw(addr, v) {
                        Ok(()) => {},
                        Err(e) => return Err(e),
                    }
                    self.add_cycles(len + 2);
                } else {
                    self.add_cycles(len + 1);
                }
            },
            _ => {
                assert(false);
            },
        }
        Ok(())
    }

    /// Runs a call or a push.
    #[verifier::rlimit(40)]
    fn run_push(&mut self, opcode: Opcode, len: u64) -> (r: Result<(), SystemError>)
        requires
            len == opcode.spec_len(),
            opcode is CallCcA || opcode is PushRB || opcode is PushRW,
        ensures
            (final(self)@, r) == old(self)@.execute(opcode),
    {
        reveal(Machine::execute);
        match opcode {
            Opcode::CallCcA(cc, addr) => {
                if self.condition(cc) {
                    let sp = self.get_regw(WordRegister::SP).wrapping_sub(2);
                    let pc = self.get_regw(WordRegister::PC);
                    match self.set_memw(sp, pc) {
                        Ok(()) => {},
                        Err(e) => return Err(e),
                    }
                    self.set_regw(WordRegister::SP, sp);
                    self.set_regw(WordRegister::PC, addr);
                    self.add_cycles(len + 2);
                } else {
                    self.add_cycles(len + 1);
                }
            },
            Opcode::PushRB(s) => {
                let sp = self.get_regw(WordRegister::SP).wrapping_sub(1);
                let v = self.get_regb(s);
                match self.set_memb(sp, v) {
                    Ok(()) => {},
                    Err(e) => return Err(e),
                }
                self.set_regw(WordRegister::SP, sp);
                self.add_cycles(len + 1);
            },
            Opcode::PushRW(s) => {
                let sp = self.get_regw(WordRegister::SP).wrapping_sub(2);
                let v = self.get_regw(s);
                match self.set_memw(sp, v) {
                    Ok(()) => {},
                    Err(e) => return Err(e),
                }
                self.set_regw(WordRegister::SP, sp);
                self.add_cycles(len + 1);
            },
            _ => {
                assert(false);
            },
        }
        Ok(())
    }

    /// Runs a pop.
    fn run_pop(&mut self, opcode: Opcode, len: u64) -> (r: Result<(), SystemError>)
        requires
            len == opcode.spec_len(),
            opcode is PopRB || opcode is PopRW,
        ensures
            (final(self)@, r) == old(self)@.execute(opcode),
    {
        reveal(Machine::execute);
        match opcode {
            Opcode::PopRB(d) => {
                let sp = self.get_regw(WordRegister::SP);
                if sp >= SP_START {
                    self.halt();
                } else {
                    let v = match self.get_memb(sp) {
                        Ok(v) => v,
                        Err(e) => return Err(e),
                    };
                    self.set_regb(d, v);
                    self.set_regw(WordRegister::SP, sp.wrapping_add(1));
                }
                self.add_cycles(len + 1);
            },
            Opcode::PopRW(d) => {
                let sp = self.get_regw(WordRegister::SP);
                if sp >= SP_START {
                    self.halt();
                } else {
                    let v = match self.get_memw(sp) {
                        Ok(v) => v,
                        Err(e) => return Err(e),
                    };
                    self.set_regw(d, v);
                    self.set_regw(WordRegister::SP, sp.wrapping_add(2));
                }
                self.add_cycles(len + 1);
            },
            _ => {
                assert(false);
            },
        }
        Ok(())
    }

    /// Runs a return from interrupt, a halt or a no-op.
    #[verifier::rlimit(40)]
    fn run_control(&mut self, opcode: Opcode, len: u64) -> (r: Result<(), SystemError>)
        requires
            len == opcode.spec_len(),
            opcode is Nop || opcode is Reti || opcode is Halt,
        ensures
            (final(self)@, r) == old(self)@.execute(opcode),
    {
        reveal(Machine::execute);
        match opcode {
            Opcode::Nop => {
                self.add_cycles(len);
            },
            Opcode::Reti => {
                let sp = self.get_regw(WordRegister::SP);
                if sp >= SP_START {
                    self.halt();
                } else {
                    let v = match self.get_memw(sp) {
                        Ok(v) => v,
                        Err(e) => return Err(e),
                    };
                    self.set_regw(WordRegister::PC, v);
                    self.set_regw(WordRegister::SP, sp.wrapping_add(2));
                }
                self.active_interrupt = None;
                self.add_cycles(len + 1);
            },
            Opcode::Halt => {
                self.halt();
                self.add_cycles(len + 1);
            },
            _ => {
                assert(false);
            },
        }
        Ok(())
    }
}


impl System {
    /// Runs an ALU instruction that keeps its result.
    #[verifier::rlimit(40)]
    fn run_alu(&mut self, opcode: Opcode, len: u64) -> (r: Result<(), SystemError>)
        requires
            len == opcode.spec_len(),
            opcode is AlubRRB || opcode is AlubRRW || opcode is AlubRIB || opcode is AlubRIW
                || opcode is AluuRB || opcode is AluuRW,
        ensures
            (final(self)@, r) == old(self)@.execute(opcode),
    {
        reveal(Machine::execute);
        match opcode {
            Opcode::AlubRRB(op, d, s) => {
                let lhs = self.get_regb(d);
                let rhs = self.get_regb(s);
                let v = self.alu_binaryb(op, lhs, rhs);
                self.set_regb(d, v);
            },
            Opcode::AlubRRW(op, d, s) => {
                let lhs = self.get_regw(d);
                let rhs = self.get_regw(s);
                let v = self.alu_binaryw(op, lhs, rhs);
                self.set_regw(d, v);
            },
            Opcode::AlubRIB(op, d, imm) => {
                let lhs = self.get_regb(d);
                let v = self.alu_binaryb(op, lhs, imm);
                self.set_regb(d, v);
            },
            Opcode::AlubRIW(op, d, imm) => {
                let lhs = self.get_regw(d);
                let v = self.alu_binaryw(op, lhs, imm);
                self.set_regw(d, v);
            },
            Opcode::AluuRB(op, d) => {
                let x = self.get_regb(d);
                let v = self.alu_unaryb(op, x);
                self.set_regb(d, v);
            },
            Opcode::AluuRW(op, d) => {
                let x = self.get_regw(d);
                let v = self.alu_unaryw(op, x);
                self.set_regw(d, v);
            },
            _ => {
                assert(false);
            },
        }
        self.add_cycles(len + 1);
        Ok(())
    }

    /// Runs an ALU instruction that only sets the flags.
    #[verifier::rlimit(40)]
    fn run_compare(&mut self, opcode: Opcode, len: u64) -> (r: Result<(), SystemError>)
        requires
            len == opcode.spec_len(),
            opcode is CpAlubRRB || opcode is CpAlubRRW || opcode is CpAlubRIB
                || opcode is CpAlubRIW || opcode is CpAluuRB || opcode is CpAluuRW,
        ensures
            (final(self)@, r) == old(self)@.execute(opcode),
    {
        reveal(Machine::execute);
        match opcode {
            Opcode::CpAlubRRB(op, d, s) => {
                let lhs = self.get_regb(d);
                let rhs = self.get_regb(s);
                let _ = self.alu_binaryb(op, lhs, rhs);
            },
            Opcode::CpAlubRRW(op, d, s) => {
                let lhs = self.get_regw(d);
                let rhs = self.get_regw(s);
                let _ = self.alu_binaryw(op, lhs, rhs);
            },
            Opcode::CpAlubRIB(op, d, imm) => {
                let lhs = self.get_regb(d);
                let _ = self.alu_binaryb(op, lhs, imm);
            },
            Opcode::CpAlubRIW(op, d, imm) => {
                let lhs = self.get_regw(d);
                let _ = self.alu_binaryw(op, lhs, imm);
            },
            Opcode::CpAluuRB(op, d) => {
                let x = self.get_regb(d);
                let _ = self.alu_unaryb(op, x);
            },
            Opcode::CpAluuRW(op, d) => {
                let x = self.get_regw(d);
                let _ = self.alu_unaryw(op, x);
            },
            _ => {
                assert(false);
            },
        }
        self.add_cycles(len + 1);
        Ok(())
    }

    /// Runs an instruction that clears, sets, toggles or tests one bit of a register.
    #[verifier::rlimit(40)]
    fn run_bit(&mut self, opcode: Opcode, len: u64) -> (r: Result<(), SystemError>)
        requires
            len == opcode.spec_len(),
            opcode is ClbRIB || opcode is ClbRIW || opcode is ClbRRB || opcode is ClbRRW
                || opcode is StbRIB || opcode is StbRIW || opcode is StbRRB || opcode is StbRRW
                || opcode is TgbRIB || opcode is TgbRIW || opcode is TgbRRB || opcode is TgbRRW
                || opcode is TbitRIB || opcode is TbitRIW || opcode is TbitRRB
                || opcode is TbitRRW,
        ensures
            (final(self)@, r) == old(self)@.execute(opcode),
    {
        reveal(Machine::execute);
        match opcode {
            Opcode::ClbRIB(d, bit) => {
                let v = self.get_regb(d) & !(1u8 << (bit % 8));
                self.set_regb(d, v);
            },
            Opcode::ClbRIW(d, bit) => {
                let v = self.get_regw(d) & !(1u16 << (bit % 16));
                self.set_regw(d, v);
            },
            Opcode::ClbRRB(d, br) => {
                let v = self.get_regb(d) & !(1u8 << (self.get_regb(br) % 8));
                self.set_regb(d, v);
            },
            Opcode::ClbRRW(d, br) => {
                let v = self.get_regw(d) & !(1u16 << (self.get_regb(br) % 16));
                self.set_regw(d, v);
            },
            Opcode::StbRIB(d, bit) => {
                let v = self.get_regb(d) | (1u8 << (bit % 8));
                self.set_regb(d, v);
            },
            Opcode::StbRIW(d, bit) => {
                let v = self.get_regw(d) | (1u16 << (bit % 16));
                self.set_regw(d, v);
            },
            Opcode::StbRRB(d, br) => {
                let v = self.get_regb(d) | (1u8 << (self.get_regb(br) % 8));
                self.set_regb(d, v);
            },
            Opcode::StbRRW(d, br) => {
                let v = self.get_regw(d) | (1u16 << (self.get_regb(br) % 16));
                self.set_regw(d, v);
            },
            Opcode::TgbRIB(d, bit) => {
                let v = self.get_regb(d) ^ (1u8 << (bit % 8));
                self.set_regb(d, v);
            },
            Opcode::TgbRIW(d, bit) => {
                let v = self.get_regw(d) ^ (1u16 << (bit % 16));
                self.set_regw(d, v);
            },
            Opcode::TgbRRB(d, br) => {
                let v = self.get_regb(d) ^ (1u8 << (self.get_regb(br) % 8));
                self.set_regb(d, v);
            },
            Opcode::TgbRRW(d, br) => {
                let v = self.get_regw(d) ^ (1u16 << (self.get_regb(br) % 16));
                self.set_regw(d, v);
            },
            Opcode::TbitRIB(s, bit) => {
                let clear = self.get_regb(s) & (1u8 << (bit % 8)) == 0;
                self.set_test_flag(clear);
            },
            Opcode::TbitRIW(s, bit) => {
                let clear = self.get_regw(s) & (1u16 << (bit % 16)) == 0;
                self.set_test_flag(clear);
            },
            Opcode::TbitRRB(s, br) => {
                let clear = self.get_regb(s) & (1u8 << (self.get_regb(br) % 8)) == 0;
                self.set_test_flag(clear);
            },
            Opcode::TbitRRW(s, br) => {
                let clear = self.get_regw(s) & (1u16 << (self.get_regb(br) % 16)) == 0;
                self.set_test_flag(clear);
            },
            _ => {
                assert(false);
            },
        }
        self.add_cycles(len + 1);
        Ok(())
    }

    /// Sets ZF to whether a tested bit was clear, keeping the other flags.
    fn set_test_flag(&mut self, bit_clear: bool)
        ensures
            final(self)@ == old(self)@.with_regw(
                WordRegister::FL,
                old(self)@.test_bit_flags(bit_clear),
            ),
    {
        let fl = self.reg_fl;
        let zf: u16 = if bit_clear {
            1
        } else {
            0
        };
        self.set_regw(WordRegister::FL, fl - fl % 2 + zf);
    }
}


/// The number of bytes in the encoding of an instruction.
fn encoded_len(opcode: Opcode) -> (r: u16)
    ensures
        r == opcode.spec_len(),
        1 <= r <= 4,
{
    proof {
        lemma_to_vec_len(opcode);
    }
    opcode.to_vec().len() as u16
}

impl System {
    /// Executes a given opcode in the system, updating the system's state accordingly.
    /// PC is expected to point past the instruction already.
    ///
    /// # Errors
    ///
    /// Returns the error of a memory access that failed; the accesses before it have
    /// taken effect.
    pub fn run_instruction(&mut self, opcode: Opcode) -> (r: Result<(), SystemError>)
        ensures
            (final(self)@, r) == old(self)@.execute(opcode),
    {
        let len = encoded_len(opcode) as u64;
        match opcode {
            Opcode::MovRIB(..) | Opcode::MovRIW(..) | Opcode::MovCcRRB(..) | Opcode::MovCcRRW(..)
            | Opcode::XchCcRRB(..) | Opcode::XchCcRRW(..) | Opcode::LeaCcROB(..)
            | Opcode::LeaCcROW(..) | Opcode::JmpCcA(..) | Opcode::JrCcX(..) => {
                self.run_register_move(opcode, len)
            },
            Opcode::MovRAB(..) | Opcode::MovRAW(..) | Opcode::MovCcROB(..) | Opcode::MovCcROW(
                ..,
            ) => self.run_load(opcode, len),
            Opcode::MovARB(..) | Opcode::MovARW(..) | Opcode::MovCcORB(..) | Opcode::MovCcORW(
                ..,
            ) => self.run_store(opcode, len),
            Opcode::CallCcA(..) | Opcode::PushRB(..) | Opcode::PushRW(..) => self.run_push(
                opcode,
                len,
            ),
            Opcode::PopRB(..) | Opcode::PopRW(..) => self.run_pop(opcode, len),
            Opcode::AlubRRB(..) | Opcode::AlubRRW(..) | Opcode::AlubRIB(..) | Opcode::AlubRIW(..)
            | Opcode::AluuRB(..) | Opcode::AluuRW(..) => self.run_alu(opcode, len),
            Opcode::CpAlubRRB(..) | Opcode::CpAlubRRW(..) | Opcode::CpAlubRIB(..)
            | Opcode::CpAlubRIW(..) | Opcode::CpAluuRB(..) | Opcode::CpAluuRW(..) => {
                self.run_compare(opcode, len)
            },
            Opcode::ClbRIB(..) | Opcode::ClbRIW(..) | Opcode::ClbRRB(..) | Opcode::ClbRRW(..)
            | Opcode::StbRIB(..) | Opcode::StbRIW(..) | Opcode::StbRRB(..) | Opcode::StbRRW(..)
            | Opcode::TgbRIB(..) | Opcode::TgbRIW(..) | Opcode::TgbRRB(..) | Opcode::TgbRRW(..)
            | Opcode::TbitRIB(..) | Opcode::TbitRIW(..) | Opcode::TbitRRB(..)
            | Opcode::TbitRRW(..) => self.run_bit(opcode, len),
            Opcode::Nop | Opcode::Reti | Opcode::Halt => self.run_control(opcode, len),
        }
    }
}


impl System {
    /// Enters the interrupt whose vector is stored at `interrupt_vector`: unless an
    /// interrupt is already active or the vector is zero, PC is pushed on the stack and
    /// set to the vector.
    ///
    /// # Errors
    ///
    /// Returns the error of a memory access that failed; the accesses before it have
    /// taken effect.
    pub fn interrupt(&mut self, interrupt_vector: u16) -> (r: Result<(), SystemError>)
        ensures
            (final(self)@, r) == old(self)@.interrupt(interrupt_vector),
    {
        let vector = match self.get_memw(interrupt_vector) {
            Ok(v) => v,
            Err(e) => return Err(e),
        };
        if self.active_interrupt.is_none() && vector != 0 {
            self.active_interrupt = Some(interrupt_vector);
            self.reg_sp = self.reg_sp.wrapping_sub(2);
            let sp = self.reg_sp;
            let pc = self.reg_pc;
            match self.set_memw(sp, pc) {
                Ok(()) => {},
                Err(e) => return Err(e),
            }
            self.reg_pc = vector;
            self.add_cycles(1);
        }
        Ok(())
    }

    /// Reads the bytes of the instruction at PC: up to four, fewer where the ROM ends.
    fn fetch(&self) -> (r: Vec<u8>)
        ensures
            r@ == self@.fetch(),
    {
        let mut bytes: Vec<u8> = Vec::new();
        let pc = self.reg_pc;
        let mut i: u16 = 0;
        while i < 4
            invariant_except_break
                i <= 4,
                pc == self@.pc,
                bytes@ + self@.fetch_from(i as nat) == self@.fetch(),
            ensures
                bytes@ == self@.fetch(),
            decreases 4 - i,
        {
            match self.get_direct_mem(pc.wrapping_add(i)) {
                Ok(b) => {
                    proof {
                        assert(bytes@.push(b) + self@.fetch_from((i + 1) as nat) =~= bytes@ + self@.fetch_from(i as nat));
                    }
                    bytes.push(b);
                    i = i + 1;
                },
                Err(_) => {
                    proof {
                        assert(bytes@ + self@.fetch_from(i as nat) =~= bytes@);
                    }
                    break;
                },
            }
        }
        proof {
            if i >= 4 {
                assert(bytes@ + self@.fetch_from(i as nat) =~= bytes@);
            }
        }
        bytes
    }

    /// Whether executing the instruction reads the standard input port.
    fn reads_standard_input(&self, opcode: Opcode) -> (r: bool)
        ensures
            r == self@.reads_standard_input(opcode),
    {
        match opcode {
            Opcode::MovRAB(_, addr) | Opcode::MovRAW(_, addr) => addr == STDIO_PORT,
            Opcode::MovCcROB(cc, _, off, base) | Opcode::MovCcROW(cc, _, off, base) => {
                self.condition(cc) && self.offset_address(base, off) == STDIO_PORT
            },
            _ => false,
        }
    }

    /// Performs a step of the CPU.
    ///
    /// May execute the instruction at the current PC, returning the executed opcode,
    /// or execute an interrupt. When the instruction reads standard input and the host
    /// has not supplied it yet (see [`System::provide_input`]), nothing is changed and
    /// [`SystemStep::NeedsInput`] is returned.
    ///
    /// # Errors
    ///
    /// Returns an error if the system is halted or if there is an issue fetching or
    /// executing the instruction.
    pub fn step(&mut self) -> (r: Result<SystemStep, SystemError>)
        ensures
            (final(self)@, r) == old(self)@.step(),
    {
        if self.is_halted() {
            return Err(SystemError::Halted);
        }
        if self.cycles >= self.next_vblank {
            self.next_vblank = self.next_vblank.wrapping_add(gpu::VBLANK_INTERVAL);
            return match self.interrupt(VBLANK_VECTOR) {
                Ok(()) => Ok(SystemStep::Interrupt(VBLANK_VECTOR)),
                Err(e) => Err(e),
            };
        }
        self.step_instruction()
    }

    /// Decodes and runs the instruction at PC.
    fn step_instruction(&mut self) -> (r: Result<SystemStep, SystemError>)
        ensures
            (final(self)@, r) == old(self)@.step_instruction(),
    {
        let bytes = self.fetch();
        let opcode = match Opcode::from_slice(bytes.as_slice()) {
            Ok(op) => op,
            Err(e) => return Err(SystemError::from(e)),
        };
        self.run_decoded(opcode)
    }

    /// Moves PC past a decoded instruction and runs it.
    fn run_decoded(&mut self, opcode: Opcode) -> (r: Result<SystemStep, SystemError>)
        ensures
            (final(self)@, r) == old(self)@.run_decoded(opcode),
    {
        let len = encoded_len(opcode);
        let pc = self.get_regw(WordRegister::PC);
        self.set_regw(WordRegister::PC, pc.wrapping_add(len));
        if self.reads_standard_input(opcode) && self.standard_input.is_none() {
            self.set_regw(WordRegister::PC, pc);
            proof {
                assert(self@ =~= old(self)@);
            }
            return Ok(SystemStep::NeedsInput);
        }
        match self.run_instruction(opcode) {
            Ok(()) => Ok(SystemStep::RanInstruction(opcode)),
            Err(e) => Err(e),
        }
    }
}

} // verus!
