//! Properties of the machine that hold across operations: what a write leaves for a
//! later read, what a pair of instructions undoes, and what an instruction leaves
//! alone.

use vstd::prelude::*;

use vstd::arithmetic::power2::lemma2_to64;
use vstd::bits::{lemma_u16_shr_is_div, lemma_u8_shr_is_div};

use crate::alu::{alu_flags, binary_outcome, lemma_alu_flags_bits, unary_outcome};
use crate::opcode::{hi_byte, lo_byte, word_of, AluBinaryOperation, AluUnaryOperation, ConditionCode, Opcode};
use crate::register::{ByteRegister, WordRegister};
use crate::system::gpu::VRAM_SIZE;
use crate::system::{
    Machine, SystemError, SystemStep, SP_START, STDIO_PORT, VRAM_BYTE_PORT, VRAM_POINTER_PORT,
};

verus! {

/// A condition and its negation never hold together, and one of them always holds.
pub proof fn lemma_condition_negate(m: Machine, cc: ConditionCode)
    ensures
        m.condition(cc.spec_negate()) == !m.condition(cc),
{
}

/// Writing a byte register and reading it back gives the value written; every other
/// byte register keeps its value.
pub proof fn lemma_byte_register_write_read(m: Machine, r: ByteRegister, v: u8, other: ByteRegister)
    ensures
        m.with_regb(r, v).regb(r) == v,
        other != r ==> m.with_regb(r, v).regb(other) == m.regb(other),
{
}

/// Writing a word register and reading it back gives the value written; a different
/// word register keeps its value.
pub proof fn lemma_word_register_write_read(m: Machine, r: WordRegister, v: u16, other: WordRegister)
    ensures
        m.with_regw(r, v).regw(r) == v,
        other != r ==> m.with_regw(r, v).regw(other) == m.regw(other),
{
    assert(word_of(hi_byte(v), lo_byte(v)) == v);
}

/// The register pairs HA, BC, XL and MN are their first register times 256 plus their
/// second.
pub proof fn lemma_register_pairs(m: Machine)
    ensures
        m.regw(WordRegister::HA) == m.regb(ByteRegister::H) * 256 + m.regb(ByteRegister::A),
        m.regw(WordRegister::BC) == m.regb(ByteRegister::B) * 256 + m.regb(ByteRegister::C),
        m.regw(WordRegister::XL) == m.regb(ByteRegister::X) * 256 + m.regb(ByteRegister::L),
        m.regw(WordRegister::MN) == m.regb(ByteRegister::M) * 256 + m.regb(ByteRegister::N),
{
}

/// Whether an address is plain RAM: below the ROM and not a memory-mapped port.
pub open spec fn is_plain_ram(addr: u16) -> bool {
    addr < 0x8000 && !Machine::is_read_port(addr) && !Machine::is_write_port(addr)
}

/// A byte written to plain RAM is read back unchanged.
pub proof fn lemma_ram_byte_write_read(m: Machine, addr: u16, v: u8)
    requires
        m.ram.len() == 0x8000,
        is_plain_ram(addr),
    ensures
        m.write_byte(addr, v).1 == Ok::<(), SystemError>(()),
        m.write_byte(addr, v).0.read_byte(addr) == (m.write_byte(addr, v).0, Ok::<u8, SystemError>(v)),
{
}

/// A word written to plain RAM is read back unchanged.
pub proof fn lemma_ram_word_write_read(m: Machine, addr: u16, v: u16)
    requires
        m.ram.len() == 0x8000,
        is_plain_ram(addr),
        addr < 0x7FFF,
    ensures
        m.write_word(addr, v).1 == Ok::<(), SystemError>(()),
        m.write_word(addr, v).0.read_word(addr) == (m.write_word(addr, v).0, Ok::<u16, SystemError>(v)),
{
    assert(addr.wrapping_add(1) == addr + 1);
    assert(word_of(hi_byte(v), lo_byte(v)) == v);
}

/// A halted system refuses to step and is left as it was.
pub proof fn lemma_halted_step(m: Machine)
    requires
        m.is_halted(),
    ensures
        m.step() == (m, Err::<SystemStep, SystemError>(SystemError::Halted)),
{
}

/// A step that asks for standard input changes nothing.
pub proof fn lemma_needs_input_changes_nothing(m: Machine)
    requires
        m.step().1 == Ok::<SystemStep, SystemError>(SystemStep::NeedsInput),
    ensures
        m.step().0 == m,
{
}


/// What a word push does.
proof fn lemma_execute_push_word(m: Machine, s: WordRegister)
    ensures
        m.execute(Opcode::PushRW(s)) == ({
            let sp = m.sp.wrapping_sub(2);
            let (m1, r) = m.write_word(sp, m.regw(s));
            match r {
                Ok(_) => (m1.with_regw(WordRegister::SP, sp).tick(2), Ok::<(), SystemError>(())),
                Err(e) => (m1, Err(e)),
            }
        }),
{
    reveal(Machine::execute);
}

/// What a word pop does when SP is below its starting value.
proof fn lemma_execute_pop_word(m: Machine, d: WordRegister)
    requires
        m.sp < SP_START,
    ensures
        m.execute(Opcode::PopRW(d)) == ({
            let (m1, r) = m.read_word(m.sp);
            match r {
                Ok(v) => (
                    m1.with_regw(d, v).with_regw(WordRegister::SP, m.sp.wrapping_add(2)).tick(2),
                    Ok::<(), SystemError>(()),
                ),
                Err(e) => (m1, Err(e)),
            }
        }),
{
    reveal(Machine::execute);
}

/// What a byte push does.
proof fn lemma_execute_push_byte(m: Machine, s: ByteRegister)
    ensures
        m.execute(Opcode::PushRB(s)) == ({
            let sp = m.sp.wrapping_sub(1);
            let (m1, r) = m.write_byte(sp, m.regb(s));
            match r {
                Ok(_) => (m1.with_regw(WordRegister::SP, sp).tick(2), Ok::<(), SystemError>(())),
                Err(e) => (m1, Err(e)),
            }
        }),
{
    reveal(Machine::execute);
}

/// What a byte pop does when SP is below its starting value.
proof fn lemma_execute_pop_byte(m: Machine, d: ByteRegister)
    requires
        m.sp < SP_START,
    ensures
        m.execute(Opcode::PopRB(d)) == ({
            let (m1, r) = m.read_byte(m.sp);
            match r {
                Ok(v) => (
                    m1.with_regb(d, v).with_regw(WordRegister::SP, m.sp.wrapping_add(1)).tick(2),
                    Ok::<(), SystemError>(()),
                ),
                Err(e) => (m1, Err(e)),
            }
        }),
{
    reveal(Machine::execute);
}

/// Pushing a word register and popping into another gives the second register the
/// first one's value and puts SP back, when the stack is in plain RAM.
pub proof fn lemma_push_pop_word(m: Machine, s: WordRegister, d: WordRegister)
    requires
        m.ram.len() == 0x8000,
        2 <= m.sp <= SP_START,
        d != WordRegister::SP,
    ensures
        m.execute(Opcode::PushRW(s)).1 is Ok,
        m.execute(Opcode::PushRW(s)).0.execute(Opcode::PopRW(d)).1 is Ok,
        m.execute(Opcode::PushRW(s)).0.execute(Opcode::PopRW(d)).0.regw(d) == m.regw(s),
        m.execute(Opcode::PushRW(s)).0.execute(Opcode::PopRW(d)).0.sp == m.sp,
{
    let sp = m.sp.wrapping_sub(2);
    assert(sp == m.sp - 2);
    lemma_ram_word_write_read(m, sp, m.regw(s));
    lemma_execute_push_word(m, s);
    let written = m.write_word(sp, m.regw(s)).0;
    let m1 = written.with_regw(WordRegister::SP, sp).tick(2);
    assert(m.execute(Opcode::PushRW(s)).0 == m1);
    assert(m1.read_word(sp) == (m1, Ok::<u16, SystemError>(m.regw(s)))) by {
        assert(m1.ram == written.ram);
        assert(m1.rom == written.rom);
    }
    lemma_execute_pop_word(m1, d);
    assert(sp.wrapping_add(2) == m.sp);
    lemma_word_register_write_read(m1, d, m.regw(s), WordRegister::SP);
}

/// Pushing a byte register and popping into another gives the second register the
/// first one's value and puts SP back, when the stack is in plain RAM.
pub proof fn lemma_push_pop_byte(m: Machine, s: ByteRegister, d: ByteRegister)
    requires
        m.ram.len() == 0x8000,
        1 <= m.sp <= SP_START,
    ensures
        m.execute(Opcode::PushRB(s)).1 is Ok,
        m.execute(Opcode::PushRB(s)).0.execute(Opcode::PopRB(d)).1 is Ok,
        m.execute(Opcode::PushRB(s)).0.execute(Opcode::PopRB(d)).0.regb(d) == m.regb(s),
        m.execute(Opcode::PushRB(s)).0.execute(Opcode::PopRB(d)).0.sp == m.sp,
{
    let sp = m.sp.wrapping_sub(1);
    assert(sp == m.sp - 1);
    lemma_ram_byte_write_read(m, sp, m.regb(s));
    lemma_execute_push_byte(m, s);
    let written = m.write_byte(sp, m.regb(s)).0;
    let m1 = written.with_regw(WordRegister::SP, sp).tick(2);
    assert(m.execute(Opcode::PushRB(s)).0 == m1);
    assert(m1.read_byte(sp) == (m1, Ok::<u8, SystemError>(m.regb(s)))) by {
        assert(m1.ram == written.ram);
    }
    lemma_execute_pop_byte(m1, d);
    assert(sp.wrapping_add(1) == m.sp);
}


/// The flags computed after an ALU operation keep the bits of FL above the four low
/// flags.
proof fn lemma_alu_flags_keep_high_bits(fl: u16, value: int, carry: bool, overflow: bool, w: nat)
    ensures
        alu_flags(fl, value, carry, overflow, w) / 16 == fl / 16,
{
}

/// A binary ALU operation changes only the four low flags: the other bits of FL, the
/// halt bit among them, and everything outside FL keep their values.
pub proof fn lemma_alu_binary_keeps_high_flags(m: Machine, op: AluBinaryOperation, lhs: u16, rhs: u16, w: nat)
    ensures
        m.alu_binary(op, lhs, rhs, w).0 == (Machine { fl: m.alu_binary(op, lhs, rhs, w).0.fl, ..m }),
        m.alu_binary(op, lhs, rhs, w).0.fl / 16 == m.fl / 16,
        m.alu_binary(op, lhs, rhs, w).0.is_halted() == m.is_halted(),
{
    let (v, cf, of) = binary_outcome(op, lhs, rhs, m.cf(), w);
    lemma_alu_flags_keep_high_bits(m.fl, v, cf, of, w);
}

/// A unary ALU operation changes only the four low flags: the other bits of FL, the
/// halt bit among them, and everything outside FL keep their values.
pub proof fn lemma_alu_unary_keeps_high_flags(m: Machine, op: AluUnaryOperation, v: u16, w: nat)
    ensures
        m.alu_unary(op, v, w).0 == (Machine { fl: m.alu_unary(op, v, w).0.fl, ..m }),
        m.alu_unary(op, v, w).0.fl / 16 == m.fl / 16,
        m.alu_unary(op, v, w).0.is_halted() == m.is_halted(),
{
    let (r, cf, of) = unary_outcome(op, v, m.cf(), w);
    lemma_alu_flags_keep_high_bits(m.fl, r, cf, of, w);
}

/// The conditional instructions and their condition codes.
pub open spec fn condition_of(opcode: Opcode) -> Option<ConditionCode> {
    match opcode {
        Opcode::MovCcRRB(cc, ..) | Opcode::MovCcRRW(cc, ..) | Opcode::XchCcRRB(cc, ..)
        | Opcode::XchCcRRW(cc, ..) | Opcode::MovCcROB(cc, ..) | Opcode::MovCcROW(cc, ..)
        | Opcode::LeaCcROB(cc, ..) | Opcode::LeaCcROW(cc, ..) | Opcode::JmpCcA(cc, ..)
        | Opcode::CallCcA(cc, ..) | Opcode::MovCcORB(cc, ..) | Opcode::MovCcORW(cc, ..)
        | Opcode::JrCcX(cc, ..) => Some(cc),
        _ => None,
    }
}

/// A conditional instruction whose condition does not hold only takes its cycles: one
/// more than its length.
pub proof fn lemma_untaken_condition(m: Machine, opcode: Opcode)
    requires
        condition_of(opcode) is Some,
        !m.condition(condition_of(opcode)->Some_0),
    ensures
        m.execute(opcode) == (m.tick((opcode.spec_len() + 1) as u64), Ok::<(), SystemError>(())),
{
    let expected = (m.tick((opcode.spec_len() + 1) as u64), Ok::<(), SystemError>(()));
    match opcode {
        Opcode::MovCcRRB(..) => {
            assert(m.execute(opcode) == expected) by {
                reveal(Machine::execute);
            }
        },
        Opcode::MovCcRRW(..) => {
            assert(m.execute(opcode) == expected) by {
                reveal(Machine::execute);
            }
        },
        Opcode::XchCcRRB(..) => {
            assert(m.execute(opcode) == expected) by {
                reveal(Machine::execute);
            }
        },
        Opcode::XchCcRRW(..) => {
            assert(m.execute(opcode) == expected) by {
                reveal(Machine::execute);
            }
        },
        Opcode::MovCcROB(..) => {
            assert(m.execute(opcode) == expected) by {
                reveal(Machine::execute);
            }
        },
        Opcode::MovCcROW(..) => {
            assert(m.execute(opcode) == expected) by {
                reveal(Machine::execute);
            }
        },
        Opcode::LeaCcROB(..) => {
            assert(m.execute(opcode) == expected) by {
                reveal(Machine::execute);
            }
        },
        Opcode::LeaCcROW(..) => {
            assert(m.execute(opcode) == expected) by {
                reveal(Machine::execute);
            }
        },
        Opcode::JmpCcA(..) => {
            assert(m.execute(opcode) == expected) by {
                reveal(Machine::execute);
            }
        },
        Opcode::CallCcA(..) => {
            assert(m.execute(opcode) == expected) by {
                reveal(Machine::execute);
            }
        },
        Opcode::MovCcORB(..) => {
            assert(m.execute(opcode) == expected) by {
                reveal(Machine::execute);
            }
        },
        Opcode::MovCcORW(..) => {
            assert(m.execute(opcode) == expected) by {
                reveal(Machine::execute);
            }
        },
        Opcode::JrCcX(..) => {
            assert(m.execute(opcode) == expected) by {
                reveal(Machine::execute);
            }
        },
        _ => {},
    }
}

/// A compare instruction changes only the flags and the cycle count, and never fails.
pub proof fn lemma_compare_changes_only_flags(m: Machine, opcode: Opcode)
    requires
        opcode is CpAlubRRB || opcode is CpAlubRRW || opcode is CpAlubRIB
            || opcode is CpAlubRIW || opcode is CpAluuRB || opcode is CpAluuRW,
    ensures
        m.execute(opcode).1 is Ok,
        m.execute(opcode).0 == (Machine {
            fl: m.execute(opcode).0.fl,
            cycles: m.execute(opcode).0.cycles,
            ..m
        }),
{
    match opcode {
        Opcode::CpAlubRRB(op, d, s) => {
            lemma_execute_cpalubrrb(m, op, d, s);
        },
        Opcode::CpAlubRRW(op, d, s) => {
            lemma_execute_cpalubrrw(m, op, d, s);
        },
        Opcode::CpAlubRIB(op, d, imm) => {
            lemma_execute_cpalubrib(m, op, d, imm);
        },
        Opcode::CpAlubRIW(op, d, imm) => {
            lemma_execute_cpalubriw(m, op, d, imm);
        },
        Opcode::CpAluuRB(op, d) => {
            lemma_execute_cpaluurb(m, op, d);
        },
        Opcode::CpAluuRW(op, d) => {
            lemma_execute_cpaluurw(m, op, d);
        },
        _ => {},
    }
}

proof fn lemma_execute_cpalubrrb(m: Machine, op: AluBinaryOperation, d: ByteRegister, s: ByteRegister)
    ensures
        m.execute(Opcode::CpAlubRRB(op, d, s)) == (m.alu_binary(op, m.regb(d) as u16, m.regb(s) as u16, 8).0.tick(3), Ok::<(), SystemError>(())),
{
    reveal(Machine::execute);
}

proof fn lemma_execute_cpalubrrw(m: Machine, op: AluBinaryOperation, d: WordRegister, s: WordRegister)
    ensures
        m.execute(Opcode::CpAlubRRW(op, d, s)) == (m.alu_binary(op, m.regw(d), m.regw(s), 16).0.tick(3), Ok::<(), SystemError>(())),
{
    reveal(Machine::execute);
}

proof fn lemma_execute_cpalubrib(m: Machine, op: AluBinaryOperation, d: ByteRegister, imm: u8)
    ensures
        m.execute(Opcode::CpAlubRIB(op, d, imm)) == (m.alu_binary(op, m.regb(d) as u16, imm as u16, 8).0.tick(4), Ok::<(), SystemError>(())),
{
    reveal(Machine::execute);
}

proof fn lemma_execute_cpalubriw(m: Machine, op: AluBinaryOperation, d: WordRegister, imm: u16)
    ensures
        m.execute(Opcode::CpAlubRIW(op, d, imm)) == (m.alu_binary(op, m.regw(d), imm, 16).0.tick(5), Ok::<(), SystemError>(())),
{
    reveal(Machine::execute);
}

proof fn lemma_execute_cpaluurb(m: Machine, op: AluUnaryOperation, d: ByteRegister)
    ensures
        m.execute(Opcode::CpAluuRB(op, d)) == (m.alu_unary(op, m.regb(d) as u16, 8).0.tick(3), Ok::<(), SystemError>(())),
{
    reveal(Machine::execute);
}

proof fn lemma_execute_cpaluurw(m: Machine, op: AluUnaryOperation, d: WordRegister)
    ensures
        m.execute(Opcode::CpAluuRW(op, d)) == (m.alu_unary(op, m.regw(d), 16).0.tick(3), Ok::<(), SystemError>(())),
{
    reveal(Machine::execute);
}

/// What an exchange of byte registers does when its condition holds.
proof fn lemma_execute_exchange_byte(m: Machine, d: ByteRegister, s: ByteRegister)
    ensures
        m.execute(Opcode::XchCcRRB(ConditionCode::True, d, s)) == (
            m.with_regb(d, m.regb(s)).with_regb(s, m.regb(d)).tick(4),
            Ok::<(), SystemError>(()),
        ),
{
    reveal(Machine::execute);
}

/// What an exchange of word registers does when its condition holds.
proof fn lemma_execute_exchange_word(m: Machine, d: WordRegister, s: WordRegister)
    ensures
        m.execute(Opcode::XchCcRRW(ConditionCode::True, d, s)) == (
            m.with_regw(d, m.regw(s)).with_regw(s, m.regw(d)).tick(4),
            Ok::<(), SystemError>(()),
        ),
{
    reveal(Machine::execute);
}

/// Exchanging two byte registers twice gives every register its old value back.
pub proof fn lemma_exchange_twice_byte(m: Machine, d: ByteRegister, s: ByteRegister)
    ensures
        ({
            let once = m.execute(Opcode::XchCcRRB(ConditionCode::True, d, s)).0;
            let twice = once.execute(Opcode::XchCcRRB(ConditionCode::True, d, s)).0;
            twice == (Machine { cycles: twice.cycles, ..m })
        }),
{
    lemma_execute_exchange_byte(m, d, s);
    let once = m.execute(Opcode::XchCcRRB(ConditionCode::True, d, s)).0;
    lemma_execute_exchange_byte(once, d, s);
    let twice = once.execute(Opcode::XchCcRRB(ConditionCode::True, d, s)).0;
    assert(twice =~= (Machine { cycles: twice.cycles, ..m }));
}

/// Exchanging two word registers twice gives every register its old value back.
#[verifier::rlimit(60)]
pub proof fn lemma_exchange_twice_word(m: Machine, d: WordRegister, s: WordRegister)
    ensures
        ({
            let once = m.execute(Opcode::XchCcRRW(ConditionCode::True, d, s)).0;
            let twice = once.execute(Opcode::XchCcRRW(ConditionCode::True, d, s)).0;
            twice == (Machine { cycles: twice.cycles, ..m })
        }),
{
    lemma_execute_exchange_word(m, d, s);
    let once = m.execute(Opcode::XchCcRRW(ConditionCode::True, d, s)).0;
    lemma_execute_exchange_word(once, d, s);
    let twice = once.execute(Opcode::XchCcRRW(ConditionCode::True, d, s)).0;
    assert(word_of(hi_byte(m.regw(d)), lo_byte(m.regw(d))) == m.regw(d));
    assert(word_of(hi_byte(m.regw(s)), lo_byte(m.regw(s))) == m.regw(s));
    assert(twice =~= (Machine { cycles: twice.cycles, ..m }));
}


/// A byte written to the standard output port is appended to the output.
pub proof fn lemma_output_appends(m: Machine, v: u8)
    ensures
        m.write_byte(STDIO_PORT, v) == (
            Machine { output: m.output.push(v), ..m },
            Ok::<(), SystemError>(()),
        ),
{
    assert(lo_byte(v as u16) == v);
}

/// Reading the standard input port gives the low byte of the value the host supplied
/// and uses it up.
pub proof fn lemma_input_consumed(m: Machine, value: u16)
    ensures
        (Machine { input: Some(value), ..m }).read_byte(STDIO_PORT) == (
            Machine { input: None, ..m },
            Ok::<u8, SystemError>(lo_byte(value)),
        ),
{
}

/// A byte written through the VRAM byte port at a pointer is read back through the
/// same port once the pointer is set back.
pub proof fn lemma_vram_write_read(m: Machine, pointer: u16, v: u8)
    requires
        m.vram.len() == VRAM_SIZE,
    ensures
        ({
            let m2 = m.write_word(VRAM_POINTER_PORT, pointer).0;
            let m3 = m2.write_byte(VRAM_BYTE_PORT, v).0;
            let m4 = m3.write_word(VRAM_POINTER_PORT, pointer).0;
            &&& m3.vram_pointer == pointer.wrapping_add(1)
            &&& m4.read_byte(VRAM_BYTE_PORT).1 == Ok::<u8, SystemError>(v)
        }),
{
    assert(lo_byte(v as u16) == v);
}

/// The instruction bytes at PC depend on PC, the RAM and the ROM only.
proof fn lemma_fetch_from_depends_on_memory(m: Machine, other: Machine, i: nat)
    requires
        other.pc == m.pc,
        other.ram == m.ram,
        other.rom == m.rom,
    ensures
        other.fetch_from(i) == m.fetch_from(i),
    decreases 4 - i,
{
    if i < 4 {
        lemma_fetch_from_depends_on_memory(m, other, i + 1);
    }
}

/// Once the host supplies standard input, the step that asked for it no longer does.
pub proof fn lemma_input_unblocks_step(m: Machine, value: u16)
    requires
        m.step().1 == Ok::<SystemStep, SystemError>(SystemStep::NeedsInput),
    ensures
        (Machine { input: Some(value), ..m }).step().1 != Ok::<SystemStep, SystemError>(
            SystemStep::NeedsInput,
        ),
{
    let supplied = Machine { input: Some(value), ..m };
    lemma_fetch_from_depends_on_memory(m, supplied, 0);
}


/// What an unconditional call does.
proof fn lemma_execute_call(m: Machine, addr: u16)
    ensures
        m.execute(Opcode::CallCcA(ConditionCode::True, addr)) == ({
            let sp = m.sp.wrapping_sub(2);
            let (m1, r) = m.write_word(sp, m.pc);
            match r {
                Ok(_) => (
                    m1.with_regw(WordRegister::SP, sp).with_regw(WordRegister::PC, addr).tick(5),
                    Ok::<(), SystemError>(()),
                ),
                Err(e) => (m1, Err(e)),
            }
        }),
{
    reveal(Machine::execute);
}

/// A call followed by a pop into PC (a return) comes back to the PC the call was made
/// with, which is the address after the call, and puts SP back, when the stack is in
/// plain RAM.
pub proof fn lemma_call_return(m: Machine, addr: u16)
    requires
        m.ram.len() == 0x8000,
        2 <= m.sp <= SP_START,
    ensures
        m.execute(Opcode::CallCcA(ConditionCode::True, addr)).1 is Ok,
        m.execute(Opcode::CallCcA(ConditionCode::True, addr)).0.pc == addr,
        m.execute(Opcode::CallCcA(ConditionCode::True, addr)).0.execute(
            Opcode::PopRW(WordRegister::PC),
        ).1 is Ok,
        m.execute(Opcode::CallCcA(ConditionCode::True, addr)).0.execute(
            Opcode::PopRW(WordRegister::PC),
        ).0.pc == m.pc,
        m.execute(Opcode::CallCcA(ConditionCode::True, addr)).0.execute(
            Opcode::PopRW(WordRegister::PC),
        ).0.sp == m.sp,
{
    let sp = m.sp.wrapping_sub(2);
    assert(sp == m.sp - 2);
    lemma_ram_word_write_read(m, sp, m.pc);
    lemma_execute_call(m, addr);
    let written = m.write_word(sp, m.pc).0;
    let m1 = written.with_regw(WordRegister::SP, sp).with_regw(WordRegister::PC, addr).tick(5);
    assert(m.execute(Opcode::CallCcA(ConditionCode::True, addr)).0 == m1);
    assert(m1.read_word(sp) == (m1, Ok::<u16, SystemError>(m.pc))) by {
        assert(m1.ram == written.ram);
        assert(m1.rom == written.rom);
    }
    lemma_execute_pop_word(m1, WordRegister::PC);
    assert(sp.wrapping_add(2) == m.sp);
}

/// What a return from interrupt does when SP is below its starting value.
proof fn lemma_execute_reti(m: Machine)
    requires
        m.sp < SP_START,
    ensures
        m.execute(Opcode::Reti) == ({
            let (m1, r) = m.read_word(m.sp);
            match r {
                Ok(v) => (
                    Machine {
                        active_interrupt: None,
                        ..m1.with_regw(WordRegister::PC, v).with_regw(
                            WordRegister::SP,
                            m.sp.wrapping_add(2),
                        )
                    }.tick(2),
                    Ok::<(), SystemError>(()),
                ),
                Err(e) => (m1, Err(e)),
            }
        }),
{
    reveal(Machine::execute);
}

/// Entering an interrupt and returning from it with RETI gives back PC and SP and
/// leaves no interrupt active, when the vector and the stack are in plain RAM.
pub proof fn lemma_interrupt_return(m: Machine, vector_addr: u16)
    requires
        m.ram.len() == 0x8000,
        2 <= m.sp <= SP_START,
        is_plain_ram(vector_addr),
        vector_addr < 0x7FFF,
        m.active_interrupt is None,
        m.read_word(vector_addr).1 != Ok::<u16, SystemError>(0),
    ensures
        m.interrupt(vector_addr).1 is Ok,
        m.interrupt(vector_addr).0.active_interrupt == Some(vector_addr),
        m.interrupt(vector_addr).0.execute(Opcode::Reti).1 is Ok,
        m.interrupt(vector_addr).0.execute(Opcode::Reti).0.pc == m.pc,
        m.interrupt(vector_addr).0.execute(Opcode::Reti).0.sp == m.sp,
        m.interrupt(vector_addr).0.execute(Opcode::Reti).0.active_interrupt is None,
{
    let sp = m.sp.wrapping_sub(2);
    assert(sp == m.sp - 2);
    assert(vector_addr.wrapping_add(1) == vector_addr + 1);
    let m1 = Machine { active_interrupt: Some(vector_addr), sp: sp, ..m };
    lemma_ram_word_write_read(m1, sp, m1.pc);
    let written = m1.write_word(sp, m1.pc).0;
    let m2 = Machine { pc: m.read_word(vector_addr).1->Ok_0, ..written }.tick(1);
    assert(m.interrupt(vector_addr).0 == m2);
    assert(m2.read_word(sp) == (m2, Ok::<u16, SystemError>(m.pc))) by {
        assert(m2.ram == written.ram);
        assert(m2.rom == written.rom);
    }
    lemma_execute_reti(m2);
    assert(sp.wrapping_add(2) == m.sp);
}

/// An interrupt whose vector is zero, or that comes while another interrupt is
/// active, changes nothing, when the vector is in plain RAM.
pub proof fn lemma_interrupt_not_entered(m: Machine, vector_addr: u16)
    requires
        m.ram.len() == 0x8000,
        is_plain_ram(vector_addr),
        vector_addr < 0x7FFF,
        m.active_interrupt is Some || m.read_word(vector_addr).1 == Ok::<u16, SystemError>(0),
    ensures
        m.interrupt(vector_addr) == (m, Ok::<(), SystemError>(())),
{
    assert(vector_addr.wrapping_add(1) == vector_addr + 1);
}


/// Each condition code reads the bits of FL directly: ZF is bit 0, CF bit 1, SF bit 2
/// and OF bit 3; codes 8 to 15 are the negations of codes 0 to 7.
pub proof fn lemma_condition_flag_bits(m: Machine)
    ensures
        m.condition(ConditionCode::Z) == (m.fl & 1 != 0),
        m.condition(ConditionCode::C) == (m.fl & 2 != 0),
        m.condition(ConditionCode::S) == (m.fl & 4 != 0),
        m.condition(ConditionCode::O) == (m.fl & 8 != 0),
        m.condition(ConditionCode::LE) == (((m.fl & 8 != 0) != (m.fl & 4 != 0)) || (m.fl & 1 != 0)),
        m.condition(ConditionCode::BE) == ((m.fl & 2 != 0) || (m.fl & 1 != 0)),
        m.condition(ConditionCode::L) == ((m.fl & 8 != 0) != (m.fl & 4 != 0)),
        !m.condition(ConditionCode::False),
        m.condition(ConditionCode::NZ) == (m.fl & 1 == 0),
        m.condition(ConditionCode::NC) == (m.fl & 2 == 0),
        m.condition(ConditionCode::NS) == (m.fl & 4 == 0),
        m.condition(ConditionCode::NO) == (m.fl & 8 == 0),
        m.condition(ConditionCode::G) == !(((m.fl & 8 != 0) != (m.fl & 4 != 0)) || (m.fl & 1 != 0)),
        m.condition(ConditionCode::A) == !((m.fl & 2 != 0) || (m.fl & 1 != 0)),
        m.condition(ConditionCode::GE) == ((m.fl & 8 != 0) == (m.fl & 4 != 0)),
        m.condition(ConditionCode::True),
{
    let fl = m.fl;
    assert((fl & 1 != 0) == (fl % 2 == 1)) by (bit_vector);
    assert((fl & 2 != 0) == ((fl / 2) % 2 == 1)) by (bit_vector);
    assert((fl & 4 != 0) == ((fl / 4) % 2 == 1)) by (bit_vector);
    assert((fl & 8 != 0) == ((fl / 8) % 2 == 1)) by (bit_vector);
}

/// Selecting a ROM page and reading at `0x8000 + offset` gives the ROM byte at
/// `page * 0x8000 + offset`, for every page; past the end of the ROM the read fails.
pub proof fn lemma_rom_page_read(m: Machine, page: u8, offset: u16)
    requires
        m.ram.len() == 0x8000,
        offset < 0x8000,
    ensures
        ({
            let selected = m.write_byte(0x7FFE, page).0;
            let index = page as int * 0x8000 + offset as int;
            &&& m.write_byte(0x7FFE, page).1 is Ok
            &&& selected.rom == m.rom
            &&& index < m.rom.len() ==> selected.read_byte((0x8000 + offset) as u16) == (
                selected,
                Ok::<u8, SystemError>(m.rom[index]),
            )
            &&& index >= m.rom.len() ==> selected.read_byte((0x8000 + offset) as u16).1 == Err::<
                u8,
                SystemError,
            >(SystemError::ReadOutOfRomBounds)
        }),
{
    let selected = m.write_byte(0x7FFE, page).0;
    assert(selected.ram[0x7FFE] == page);
}

/// A register-relative word load whose condition holds loads the big-endian word at
/// the base register plus the sign-extended offset, wrapping around 16 bits, when that
/// word lies in plain RAM.
pub proof fn lemma_offset_load_word(
    m: Machine,
    cc: ConditionCode,
    d: WordRegister,
    off: i8,
    base: WordRegister,
)
    requires
        m.ram.len() == 0x8000,
        m.condition(cc),
        (m.regw(base) as int + off as int) % 0x10000 + 1 < 0x7F80,
    ensures
        ({
            let addr = (m.regw(base) as int + off as int) % 0x10000;
            let r = m.execute(Opcode::MovCcROW(cc, d, off, base));
            &&& r.1 is Ok
            &&& r.0.regw(d) == m.ram[addr] * 256 + m.ram[addr + 1]
        }),
{
    let addr = (m.regw(base) as int + off as int) % 0x10000;
    let a = m.offset_address(base, off);
    assert(a == addr);
    assert(a.wrapping_add(1) == addr + 1);
    assert(m.execute(Opcode::MovCcROW(cc, d, off, base)) == Machine::then_tick(
        m.load_word(a, d),
        5,
    )) by {
        reveal(Machine::execute);
    }
    lemma_word_register_write_read(m, d, word_of(m.ram[addr], m.ram[addr + 1]), d);
}

/// A register-relative byte load whose condition holds loads the byte at the base
/// register plus the sign-extended offset, wrapping around 16 bits, when that byte
/// lies in plain RAM.
pub proof fn lemma_offset_load_byte(
    m: Machine,
    cc: ConditionCode,
    d: ByteRegister,
    off: i8,
    base: WordRegister,
)
    requires
        m.ram.len() == 0x8000,
        m.condition(cc),
        (m.regw(base) as int + off as int) % 0x10000 < 0x7F80,
    ensures
        ({
            let addr = (m.regw(base) as int + off as int) % 0x10000;
            let r = m.execute(Opcode::MovCcROB(cc, d, off, base));
            &&& r.1 is Ok
            &&& r.0.regb(d) == m.ram[addr]
        }),
{
    let addr = (m.regw(base) as int + off as int) % 0x10000;
    let a = m.offset_address(base, off);
    assert(a == addr);
    assert(m.execute(Opcode::MovCcROB(cc, d, off, base)) == Machine::then_tick(
        m.load_byte(a, d),
        5,
    )) by {
        reveal(Machine::execute);
    }
}


/// A 16-bit SHR shifts the operand right by the count modulo 16 and puts the last bit
/// shifted out into CF (CF is clear for a count of 0).
pub proof fn lemma_shr_word(m: Machine, x: u16, count: u16)
    ensures
        m.alu_binary(AluBinaryOperation::Shr, x, count, 16).1 == x >> (count % 16),
        m.alu_binary(AluBinaryOperation::Shr, x, count, 16).0.cf() == (count % 16 != 0 && (x >> (
        (count % 16) - 1) as u16) & 1 == 1),
{
    lemma2_to64();
    let k = count % 16;
    lemma_u16_shr_is_div(x, k);
    let (v, cf, of) = binary_outcome(AluBinaryOperation::Shr, x, count, m.cf(), 16);
    lemma_alu_flags_bits(m.fl, v, cf, of, 16);
    if k != 0 {
        let j = (k - 1) as u16;
        lemma_u16_shr_is_div(x, j);
        let y = x >> j;
        assert((y & 1 == 1) == (y % 2 == 1)) by (bit_vector);
    }
}

/// An 8-bit SHR shifts the operand right by the count modulo 8 and puts the last bit
/// shifted out into CF (CF is clear for a count of 0).
pub proof fn lemma_shr_byte(m: Machine, x: u8, count: u8)
    ensures
        m.alu_binary(AluBinaryOperation::Shr, x as u16, count as u16, 8).1 == (x >> (count % 8)) as u16,
        m.alu_binary(AluBinaryOperation::Shr, x as u16, count as u16, 8).0.cf() == (count % 8 != 0 && (x
            >> ((count % 8) - 1) as u8) & 1 == 1),
{
    lemma2_to64();
    let k = count % 8;
    lemma_u8_shr_is_div(x, k);
    let (v, cf, of) = binary_outcome(AluBinaryOperation::Shr, x as u16, count as u16, m.cf(), 8);
    lemma_alu_flags_bits(m.fl, v, cf, of, 8);
    if k != 0 {
        let j = (k - 1) as u8;
        lemma_u8_shr_is_div(x, j);
        let y = x >> j;
        assert((y & 1 == 1) == (y % 2 == 1)) by (bit_vector);
    }
}

/// A 16-bit RCR shifts the operand right by one, puts the old CF into bit 15 and bit 0
/// of the operand into CF; an RCL of the result gives the operand and the old CF back.
pub proof fn lemma_rotate_through_carry_word(m: Machine, v: u16)
    ensures
        m.alu_unary(AluUnaryOperation::Rcr, v, 16).1 == (v >> 1) | (if m.cf() {
            0x8000u16
        } else {
            0
        }),
        m.alu_unary(AluUnaryOperation::Rcr, v, 16).0.cf() == (v & 1 == 1),
        ({
            let (m1, r1) = m.alu_unary(AluUnaryOperation::Rcr, v, 16);
            &&& m1.alu_unary(AluUnaryOperation::Rcl, r1, 16).1 == v
            &&& m1.alu_unary(AluUnaryOperation::Rcl, r1, 16).0.cf() == m.cf()
        }),
{
    lemma2_to64();
    let c = m.cf();
    let (x1, cf1, of1) = unary_outcome(AluUnaryOperation::Rcr, v, c, 16);
    lemma_alu_flags_bits(m.fl, x1, cf1, of1, 16);
    assert((v >> 1) | 0x8000u16 == v / 2 + 0x8000) by (bit_vector);
    assert((v >> 1) | 0u16 == v / 2) by (bit_vector);
    assert((v & 1 == 1) == (v % 2 == 1)) by (bit_vector);
    let (m1, r1) = m.alu_unary(AluUnaryOperation::Rcr, v, 16);
    let (x2, cf2, of2) = unary_outcome(AluUnaryOperation::Rcl, r1, m1.cf(), 16);
    lemma_alu_flags_bits(m1.fl, x2, cf2, of2, 16);
}

/// An 8-bit RCR shifts the operand right by one, puts the old CF into bit 7 and bit 0
/// of the operand into CF; an RCL of the result gives the operand and the old CF back.
pub proof fn lemma_rotate_through_carry_byte(m: Machine, v: u8)
    ensures
        m.alu_unary(AluUnaryOperation::Rcr, v as u16, 8).1 == ((v >> 1) | (if m.cf() {
            0x80u8
        } else {
            0
        })) as u16,
        m.alu_unary(AluUnaryOperation::Rcr, v as u16, 8).0.cf() == (v & 1 == 1),
        ({
            let (m1, r1) = m.alu_unary(AluUnaryOperation::Rcr, v as u16, 8);
            &&& m1.alu_unary(AluUnaryOperation::Rcl, r1, 8).1 == v as u16
            &&& m1.alu_unary(AluUnaryOperation::Rcl, r1, 8).0.cf() == m.cf()
        }),
{
    lemma2_to64();
    let c = m.cf();
    let (x1, cf1, of1) = unary_outcome(AluUnaryOperation::Rcr, v as u16, c, 8);
    lemma_alu_flags_bits(m.fl, x1, cf1, of1, 8);
    assert((v >> 1) | 0x80u8 == v / 2 + 0x80) by (bit_vector);
    assert((v >> 1) | 0u8 == v / 2) by (bit_vector);
    assert((v & 1 == 1) == (v % 2 == 1)) by (bit_vector);
    let (m1, r1) = m.alu_unary(AluUnaryOperation::Rcr, v as u16, 8);
    let (x2, cf2, of2) = unary_outcome(AluUnaryOperation::Rcl, r1, m1.cf(), 8);
    lemma_alu_flags_bits(m1.fl, x2, cf2, of2, 8);
}

} // verus!
