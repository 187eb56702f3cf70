//! Disassembly: the assembly text of an instruction.

use vstd::prelude::*;
use vstd::string::StringExecFns;

use crate::opcode::{ConditionCode, Opcode};
use crate::register::{ByteRegister, WordRegister};

verus! {

/// The digit for a number below 16, in lower case.
pub open spec fn digit_text(d: nat) -> Seq<char> {
    if d == 0 {
        "0"@
    } else if d == 1 {
        "1"@
    } else if d == 2 {
        "2"@
    } else if d == 3 {
        "3"@
    } else if d == 4 {
        "4"@
    } else if d == 5 {
        "5"@
    } else if d == 6 {
        "6"@
    } else if d == 7 {
        "7"@
    } else if d == 8 {
        "8"@
    } else if d == 9 {
        "9"@
    } else if d == 10 {
        "a"@
    } else if d == 11 {
        "b"@
    } else if d == 12 {
        "c"@
    } else if d == 13 {
        "d"@
    } else if d == 14 {
        "e"@
    } else {
        "f"@
    }
}

/// The hexadecimal digits of a number, without leading zeros.
pub open spec fn hex_digits(v: nat) -> Seq<char>
    decreases v,
{
    if v < 16 {
        digit_text(v)
    } else {
        hex_digits(v / 16) + digit_text(v % 16)
    }
}

/// The decimal digits of a number, without leading zeros.
pub open spec fn decimal_digits(v: nat) -> Seq<char>
    decreases v,
{
    if v < 10 {
        digit_text(v)
    } else {
        decimal_digits(v / 10) + digit_text(v % 10)
    }
}

/// A number in hexadecimal with the `0x` prefix.
pub open spec fn hex_text(v: nat) -> Seq<char> {
    "0x"@ + hex_digits(v)
}

/// A signed number in decimal, with a minus sign when it is negative.
pub open spec fn signed_text(v: int) -> Seq<char> {
    if v < 0 {
        "-"@ + decimal_digits((-v) as nat)
    } else {
        decimal_digits(v as nat)
    }
}

/// A signed number in decimal, always with its sign.
pub open spec fn sign_and_digits(v: int) -> Seq<char> {
    if v < 0 {
        "-"@ + decimal_digits((-v) as nat)
    } else {
        "+"@ + decimal_digits(v as nat)
    }
}

/// A register operand: `%` and the register's name.
pub open spec fn register_operand(name: Seq<char>) -> Seq<char> {
    "%"@ + name
}

/// An immediate operand: `$` and the number's text.
pub open spec fn immediate_operand(text: Seq<char>) -> Seq<char> {
    "$"@ + text
}

/// A memory operand at an offset from a register: `offset(%base)`.
pub open spec fn offset_operand(offset: i8, base: WordRegister) -> Seq<char> {
    signed_text(offset as int) + "(%"@ + base.spec_name() + ")"@
}

/// An instruction with one operand.
pub open spec fn one_operand(mnemonic: Seq<char>, a: Seq<char>) -> Seq<char> {
    mnemonic + " "@ + a
}

/// An instruction with two operands, separated by a comma.
pub open spec fn two_operands(mnemonic: Seq<char>, a: Seq<char>, b: Seq<char>) -> Seq<char> {
    mnemonic + " "@ + a + ", "@ + b
}

/// A mnemonic followed by the name of its condition; `True` has an empty name.
pub open spec fn conditional(mnemonic: Seq<char>, cc: ConditionCode) -> Seq<char> {
    mnemonic + cc.spec_name()
}

/// The operand of a byte register.
pub open spec fn breg_operand(r: ByteRegister) -> Seq<char> {
    register_operand(r.spec_name())
}

/// The operand of a word register.
pub open spec fn wreg_operand(r: WordRegister) -> Seq<char> {
    register_operand(r.spec_name())
}

/// The text for a number below 16.
fn digit(d: u16) -> (r: &'static str)
    requires
        d < 16,
    ensures
        r@ == digit_text(d as nat),
{
    match d {
        0 => "0",
        1 => "1",
        2 => "2",
        3 => "3",
        4 => "4",
        5 => "5",
        6 => "6",
        7 => "7",
        8 => "8",
        9 => "9",
        10 => "a",
        11 => "b",
        12 => "c",
        13 => "d",
        14 => "e",
        15 => "f",
        _ => {
            assert(false);
            "f"
        },
    }
}

/// Appends the hexadecimal digits of `v`.
pub(crate) fn push_hex_digits(s: &mut String, v: u16)
    ensures
        final(s)@ == old(s)@ + hex_digits(v as nat),
    decreases v,
{
    if v >= 16 {
        push_hex_digits(s, v / 16);
    }
    s.append(digit(v % 16));
    proof {
        if v >= 16 {
            assert(old(s)@ + hex_digits((v / 16) as nat) + digit_text((v % 16) as nat) =~= old(s)@ + hex_digits(v as nat));
        }
    }
}

/// Appends the decimal digits of `v`.
fn push_decimal_digits(s: &mut String, v: u16)
    ensures
        final(s)@ == old(s)@ + decimal_digits(v as nat),
    decreases v,
{
    if v >= 10 {
        push_decimal_digits(s, v / 10);
    }
    s.append(digit(v % 10));
    proof {
        if v >= 10 {
            assert(old(s)@ + decimal_digits((v / 10) as nat) + digit_text((v % 10) as nat) =~= old(s)@ + decimal_digits(v as nat));
        }
    }
}

/// A number in hexadecimal with the `0x` prefix.
pub fn format_hex(v: u16) -> (r: String)
    ensures
        r@ == hex_text(v as nat),
{
    let mut s = String::from_str("0x");
    push_hex_digits(&mut s, v);
    s
}

/// A signed number in decimal, with a minus sign when it is negative.
pub fn format_signed(v: i8) -> (r: String)
    ensures
        r@ == signed_text(v as int),
{
    if v < 0 {
        let mut s = String::from_str("-");
        push_decimal_digits(&mut s, (-(v as i16)) as u16);
        s
    } else {
        let mut s = String::new();
        push_decimal_digits(&mut s, v as u16);
        assert(s@ =~= signed_text(v as int));
        s
    }
}

/// A signed number in decimal, always with its sign.
pub fn format_sign_and_digits(v: i8) -> (r: String)
    ensures
        r@ == sign_and_digits(v as int),
{
    let mut s = if v < 0 {
        String::from_str("-")
    } else {
        String::from_str("+")
    };
    let magnitude: u16 = if v < 0 {
        (-(v as i16)) as u16
    } else {
        v as u16
    };
    push_decimal_digits(&mut s, magnitude);
    s
}


/// `%` and a register's name.
fn register_text(name: &str) -> (r: String)
    ensures
        r@ == register_operand(name@),
{
    let mut s = String::from_str("%");
    s.append(name);
    s
}

/// The operand of a byte register.
fn byte_register_text(r: ByteRegister) -> (t: String)
    ensures
        t@ == breg_operand(r),
{
    register_text(r.name())
}

/// The operand of a word register.
fn word_register_text(r: WordRegister) -> (t: String)
    ensures
        t@ == wreg_operand(r),
{
    register_text(r.name())
}

/// An immediate operand in hexadecimal.
fn immediate_hex(v: u16) -> (r: String)
    ensures
        r@ == immediate_operand(hex_text(v as nat)),
{
    let mut s = String::from_str("$");
    s.append(format_hex(v).as_str());
    s
}

/// An immediate operand in decimal.
fn immediate_decimal(v: u8) -> (r: String)
    ensures
        r@ == immediate_operand(decimal_digits(v as nat)),
{
    let mut s = String::from_str("$");
    push_decimal_digits(&mut s, v as u16);
    s
}

/// A memory operand at an offset from a register.
fn offset_text(offset: i8, base: WordRegister) -> (r: String)
    ensures
        r@ == offset_operand(offset, base),
{
    let mut s = format_signed(offset);
    s.append("(%");
    s.append(base.name());
    s.append(")");
    s
}

/// A mnemonic followed by the name of its condition.
fn conditional_mnemonic(mnemonic: &str, cc: ConditionCode) -> (r: String)
    ensures
        r@ == conditional(mnemonic@, cc),
{
    let mut s = String::from_str(mnemonic);
    s.append(cc.name());
    s
}

/// `CP` followed by an ALU mnemonic.
fn compare_mnemonic(name: &str) -> (r: String)
    ensures
        r@ == "CP"@ + name@,
{
    let mut s = String::from_str("CP");
    s.append(name);
    s
}

/// An instruction with one operand.
fn one_operand_text(mnemonic: String, a: String) -> (r: String)
    ensures
        r@ == one_operand(mnemonic@, a@),
{
    let mut s = mnemonic;
    s.append(" ");
    s.append(a.as_str());
    s
}

/// An instruction with two operands.
fn two_operands_text(mnemonic: String, a: String, b: String) -> (r: String)
    ensures
        r@ == two_operands(mnemonic@, a@, b@),
{
    let mut s = mnemonic;
    s.append(" ");
    s.append(a.as_str());
    s.append(", ");
    s.append(b.as_str());
    s
}

impl Opcode {
    /// The assembly text of the instruction: the mnemonic (with the condition's name
    /// after it for a conditional instruction), then the operands separated by commas.
    /// Registers are written `%R`, immediates `$n`, addresses and immediate values in
    /// hexadecimal with `0x`, offsets and bit numbers in decimal.
    pub open spec fn spec_disassemble(self) -> Seq<char> {
        match self {
            Opcode::MovRIB(d, imm) => two_operands("MOV"@, breg_operand(d), immediate_operand(hex_text(imm as nat))),
            Opcode::MovRIW(d, imm) => two_operands("MOV"@, wreg_operand(d), immediate_operand(hex_text(imm as nat))),
            Opcode::MovCcRRB(cc, d, s) => two_operands(conditional("MOV"@, cc), breg_operand(d), breg_operand(s)),
            Opcode::MovCcRRW(cc, d, s) => two_operands(conditional("MOV"@, cc), wreg_operand(d), wreg_operand(s)),
            Opcode::XchCcRRB(cc, d, s) => two_operands(conditional("XCH"@, cc), breg_operand(d), breg_operand(s)),
            Opcode::XchCcRRW(cc, d, s) => two_operands(conditional("XCH"@, cc), wreg_operand(d), wreg_operand(s)),
            Opcode::MovRAB(d, addr) => two_operands("MOV"@, breg_operand(d), hex_text(addr as nat)),
            Opcode::MovRAW(d, addr) => two_operands("MOV"@, wreg_operand(d), hex_text(addr as nat)),
            Opcode::MovCcROB(cc, d, off, base) => two_operands(conditional("MOV"@, cc), breg_operand(d), offset_operand(off, base)),
            Opcode::MovCcROW(cc, d, off, base) => two_operands(conditional("MOV"@, cc), wreg_operand(d), offset_operand(off, base)),
            Opcode::LeaCcROB(cc, d, off, base) => two_operands(conditional("LEA"@, cc), breg_operand(d), offset_operand(off, base)),
            Opcode::LeaCcROW(cc, d, off, base) => two_operands(conditional("LEA"@, cc), wreg_operand(d), offset_operand(off, base)),
            Opcode::JmpCcA(cc, addr) => one_operand(conditional("JMP"@, cc), hex_text(addr as nat)),
            Opcode::CallCcA(cc, addr) => one_operand(conditional("CALL"@, cc), hex_text(addr as nat)),
            Opcode::MovARB(addr, s) => two_operands("MOV"@, hex_text(addr as nat), breg_operand(s)),
            Opcode::MovARW(addr, s) => two_operands("MOV"@, hex_text(addr as nat), wreg_operand(s)),
            Opcode::MovCcORB(cc, off, base, s) => two_operands(conditional("MOV"@, cc), offset_operand(off, base), breg_operand(s)),
            Opcode::MovCcORW(cc, off, base, s) => two_operands(conditional("MOV"@, cc), offset_operand(off, base), wreg_operand(s)),
            Opcode::AlubRRB(op, d, s) => two_operands(op.spec_name(), breg_operand(d), breg_operand(s)),
            Opcode::AlubRRW(op, d, s) => two_operands(op.spec_name(), wreg_operand(d), wreg_operand(s)),
            Opcode::AlubRIB(op, d, imm) => two_operands(op.spec_name(), breg_operand(d), immediate_operand(hex_text(imm as nat))),
            Opcode::AlubRIW(op, d, imm) => two_operands(op.spec_name(), wreg_operand(d), immediate_operand(hex_text(imm as nat))),
            Opcode::AluuRB(op, d) => one_operand(op.spec_name(), breg_operand(d)),
            Opcode::AluuRW(op, d) => one_operand(op.spec_name(), wreg_operand(d)),
            Opcode::CpAlubRRB(op, d, s) => two_operands("CP"@ + op.spec_name(), breg_operand(d), breg_operand(s)),
            Opcode::CpAlubRRW(op, d, s) => two_operands("CP"@ + op.spec_name(), wreg_operand(d), wreg_operand(s)),
            Opcode::CpAlubRIB(op, d, imm) => two_operands("CP"@ + op.spec_name(), breg_operand(d), immediate_operand(hex_text(imm as nat))),
            Opcode::CpAlubRIW(op, d, imm) => two_operands("CP"@ + op.spec_name(), wreg_operand(d), immediate_operand(hex_text(imm as nat))),
            Opcode::CpAluuRB(op, d) => one_operand("CP"@ + op.spec_name(), breg_operand(d)),
            Opcode::CpAluuRW(op, d) => one_operand("CP"@ + op.spec_name(), wreg_operand(d)),
            Opcode::JrCcX(cc, off) => one_operand(conditional("JR"@, cc), sign_and_digits(off as int)),
            Opcode::PushRB(s) => one_operand("PUSH"@, breg_operand(s)),
            Opcode::PushRW(s) => one_operand("PUSH"@, wreg_operand(s)),
            Opcode::PopRB(d) => one_operand("POP"@, breg_operand(d)),
            Opcode::PopRW(d) => one_operand("POP"@, wreg_operand(d)),
            Opcode::ClbRIB(d, bit) => two_operands("CLB"@, breg_operand(d), immediate_operand(decimal_digits(bit as nat))),
            Opcode::ClbRIW(d, bit) => two_operands("CLB"@, wreg_operand(d), immediate_operand(decimal_digits(bit as nat))),
            Opcode::ClbRRB(d, br) => two_operands("CLB"@, breg_operand(d), breg_operand(br)),
            Opcode::ClbRRW(d, br) => two_operands("CLB"@, wreg_operand(d), breg_operand(br)),
            Opcode::StbRIB(d, bit) => two_operands("STB"@, breg_operand(d), immediate_operand(decimal_digits(bit as nat))),
            Opcode::StbRIW(d, bit) => two_operands("STB"@, wreg_operand(d), immediate_operand(decimal_digits(bit as nat))),
            Opcode::StbRRB(d, br) => two_operands("STB"@, breg_operand(d), breg_operand(br)),
            Opcode::StbRRW(d, br) => two_operands("STB"@, wreg_operand(d), breg_operand(br)),
            Opcode::TgbRIB(d, bit) => two_operands("TGB"@, breg_operand(d), immediate_operand(decimal_digits(bit as nat))),
            Opcode::TgbRIW(d, bit) => two_operands("TGB"@, wreg_operand(d), immediate_operand(decimal_digits(bit as nat))),
            Opcode::TgbRRB(d, br) => two_operands("TGB"@, breg_operand(d), breg_operand(br)),
            Opcode::TgbRRW(d, br) => two_operands("TGB"@, wreg_operand(d), breg_operand(br)),
            Opcode::TbitRIB(d, bit) => two_operands("TBIT"@, breg_operand(d), immediate_operand(decimal_digits(bit as nat))),
            Opcode::TbitRIW(d, bit) => two_operands("TBIT"@, wreg_operand(d), immediate_operand(decimal_digits(bit as nat))),
            Opcode::TbitRRB(d, br) => two_operands("TBIT"@, breg_operand(d), breg_operand(br)),
            Opcode::TbitRRW(d, br) => two_operands("TBIT"@, wreg_operand(d), breg_operand(br)),
            Opcode::Nop => "NOP"@,
            Opcode::Reti => "RETI"@,
            Opcode::Halt => "HALT"@,
        }
    }
}

impl Opcode {
    /// Returns the assembly text of the instruction.
    pub fn disassemble(self) -> (r: String)
        ensures
            r@ == self.spec_disassemble(),
    {
        match self {
            Opcode::MovRIB(..) | Opcode::MovRIW(..) | Opcode::MovCcRRB(..) | Opcode::MovCcRRW(..) | Opcode::XchCcRRB(..) | Opcode::XchCcRRW(..) => self.disassemble_moves(),
            Opcode::MovRAB(..) | Opcode::MovRAW(..) | Opcode::MovCcROB(..) | Opcode::MovCcROW(..) | Opcode::LeaCcROB(..) | Opcode::LeaCcROW(..) | Opcode::JmpCcA(..) | Opcode::CallCcA(..) | Opcode::MovARB(..) | Opcode::MovARW(..) | Opcode::MovCcORB(..) | Opcode::MovCcORW(..) => self.disassemble_memory(),
            Opcode::AlubRRB(..) | Opcode::AlubRRW(..) | Opcode::AlubRIB(..) | Opcode::AlubRIW(..) | Opcode::AluuRB(..) | Opcode::AluuRW(..) | Opcode::CpAlubRRB(..) | Opcode::CpAlubRRW(..) | Opcode::CpAlubRIB(..) | Opcode::CpAlubRIW(..) | Opcode::CpAluuRB(..) | Opcode::CpAluuRW(..) => self.disassemble_alu(),
            Opcode::JrCcX(..) | Opcode::PushRB(..) | Opcode::PushRW(..) | Opcode::PopRB(..) | Opcode::PopRW(..) | Opcode::Nop | Opcode::Reti | Opcode::Halt => self.disassemble_stack(),
            Opcode::ClbRIB(..) | Opcode::ClbRIW(..) | Opcode::ClbRRB(..) | Opcode::ClbRRW(..) | Opcode::StbRIB(..) | Opcode::StbRIW(..) | Opcode::StbRRB(..) | Opcode::StbRRW(..) | Opcode::TgbRIB(..) | Opcode::TgbRIW(..) | Opcode::TgbRRB(..) | Opcode::TgbRRW(..) | Opcode::TbitRIB(..) | Opcode::TbitRIW(..) | Opcode::TbitRRB(..) | Opcode::TbitRRW(..) => self.disassemble_bits(),
        }
    }

    /// The assembly text of a move between registers or an immediate move.
    fn disassemble_moves(self) -> (r: String)
        requires
            self is MovRIB || self is MovRIW || self is MovCcRRB || self is MovCcRRW || self is XchCcRRB || self is XchCcRRW,
        ensures
            r@ == self.spec_disassemble(),
    {
        match self {
            Opcode::MovRIB(d, imm) => two_operands_text(String::from_str("MOV"), byte_register_text(d), immediate_hex(imm as u16)),
            Opcode::MovRIW(d, imm) => two_operands_text(String::from_str("MOV"), word_register_text(d), immediate_hex(imm as u16)),
            Opcode::MovCcRRB(cc, d, s) => two_operands_text(conditional_mnemonic("MOV", cc), byte_register_text(d), byte_register_text(s)),
            Opcode::MovCcRRW(cc, d, s) => two_operands_text(conditional_mnemonic("MOV", cc), word_register_text(d), word_register_text(s)),
            Opcode::XchCcRRB(cc, d, s) => two_operands_text(conditional_mnemonic("XCH", cc), byte_register_text(d), byte_register_text(s)),
            Opcode::XchCcRRW(cc, d, s) => two_operands_text(conditional_mnemonic("XCH", cc), word_register_text(d), word_register_text(s)),
            _ => {
                assert(false);
                String::new()
            },
        }
    }

    /// The assembly text of a memory access, a load of an address, a jump or a call.
    fn disassemble_memory(self) -> (r: String)
        requires
            self is MovRAB || self is MovRAW || self is MovCcROB || self is MovCcROW || self is LeaCcROB || self is LeaCcROW || self is JmpCcA || self is CallCcA || self is MovARB || self is MovARW || self is MovCcORB || self is MovCcORW,
        ensures
            r@ == self.spec_disassemble(),
    {
        match self {
            Opcode::MovRAB(d, addr) => two_operands_text(String::from_str("MOV"), byte_register_text(d), format_hex(addr)),
            Opcode::MovRAW(d, addr) => two_operands_text(String::from_str("MOV"), word_register_text(d), format_hex(addr)),
            Opcode::MovCcROB(cc, d, off, base) => two_operands_text(conditional_mnemonic("MOV", cc), byte_register_text(d), offset_text(off, base)),
            Opcode::MovCcROW(cc, d, off, base) => two_operands_text(conditional_mnemonic("MOV", cc), word_register_text(d), offset_text(off, base)),
            Opcode::LeaCcROB(cc, d, off, base) => two_operands_text(conditional_mnemonic("LEA", cc), byte_register_text(d), offset_text(off, base)),
            Opcode::LeaCcROW(cc, d, off, base) => two_operands_text(conditional_mnemonic("LEA", cc), word_register_text(d), offset_text(off, base)),
            Opcode::JmpCcA(cc, addr) => one_operand_text(conditional_mnemonic("JMP", cc), format_hex(addr)),
            Opcode::CallCcA(cc, addr) => one_operand_text(conditional_mnemonic("CALL", cc), format_hex(addr)),
            Opcode::MovARB(addr, s) => two_operands_text(String::from_str("MOV"), format_hex(addr), byte_register_text(s)),
            Opcode::MovARW(addr, s) => two_operands_text(String::from_str("MOV"), format_hex(addr), word_register_text(s)),
            Opcode::MovCcORB(cc, off, base, s) => two_operands_text(conditional_mnemonic("MOV", cc), offset_text(off, base), byte_register_text(s)),
            Opcode::MovCcORW(cc, off, base, s) => two_operands_text(conditional_mnemonic("MOV", cc), offset_text(off, base), word_register_text(s)),
            _ => {
                assert(false);
                String::new()
            },
        }
    }

    /// The assembly text of an ALU instruction.
    fn disassemble_alu(self) -> (r: String)
        requires
            self is AlubRRB || self is AlubRRW || self is AlubRIB || self is AlubRIW || self is AluuRB || self is AluuRW || self is CpAlubRRB || self is CpAlubRRW || self is CpAlubRIB || self is CpAlubRIW || self is CpAluuRB || self is CpAluuRW,
        ensures
            r@ == self.spec_disassemble(),
    {
        match self {
            Opcode::AlubRRB(op, d, s) => two_operands_text(String::from_str(op.name()), byte_register_text(d), byte_register_text(s)),
            Opcode::AlubRRW(op, d, s) => two_operands_text(String::from_str(op.name()), word_register_text(d), word_register_text(s)),
            Opcode::AlubRIB(op, d, imm) => two_operands_text(String::from_str(op.name()), byte_register_text(d), immediate_hex(imm as u16)),
            Opcode::AlubRIW(op, d, imm) => two_operands_text(String::from_str(op.name()), word_register_text(d), immediate_hex(imm as u16)),
            Opcode::AluuRB(op, d) => one_operand_text(String::from_str(op.name()), byte_register_text(d)),
            Opcode::AluuRW(op, d) => one_operand_text(String::from_str(op.name()), word_register_text(d)),
            Opcode::CpAlubRRB(op, d, s) => two_operands_text(compare_mnemonic(op.name()), byte_register_text(d), byte_register_text(s)),
            Opcode::CpAlubRRW(op, d, s) => two_operands_text(compare_mnemonic(op.name()), word_register_text(d), word_register_text(s)),
            Opcode::CpAlubRIB(op, d, imm) => two_operands_text(compare_mnemonic(op.name()), byte_register_text(d), immediate_hex(imm as u16)),
            Opcode::CpAlubRIW(op, d, imm) => two_operands_text(compare_mnemonic(op.name()), word_register_text(d), immediate_hex(imm as u16)),
            Opcode::CpAluuRB(op, d) => one_operand_text(compare_mnemonic(op.name()), byte_register_text(d)),
            Opcode::CpAluuRW(op, d) => one_operand_text(compare_mnemonic(op.name()), word_register_text(d)),
            _ => {
                assert(false);
                String::new()
            },
        }
    }

    /// The assembly text of a relative jump, a push, a pop or a control instruction.
    fn disassemble_stack(self) -> (r: String)
        requires
            self is JrCcX || self is PushRB || self is PushRW || self is PopRB || self is PopRW || self is Nop || self is Reti || self is Halt,
        ensures
            r@ == self.spec_disassemble(),
    {
        match self {
            Opcode::JrCcX(cc, off) => one_operand_text(conditional_mnemonic("JR", cc), format_sign_and_digits(off)),
            Opcode::PushRB(s) => one_operand_text(String::from_str("PUSH"), byte_register_text(s)),
            Opcode::PushRW(s) => one_operand_text(String::from_str("PUSH"), word_register_text(s)),
            Opcode::PopRB(d) => one_operand_text(String::from_str("POP"), byte_register_text(d)),
            Opcode::PopRW(d) => one_operand_text(String::from_str("POP"), word_register_text(d)),
            Opcode::Nop => String::from_str("NOP"),
            Opcode::Reti => String::from_str("RETI"),
            Opcode::Halt => String::from_str("HALT"),
            _ => {
                assert(false);
                String::new()
            },
        }
    }

    /// The assembly text of a bit instruction.
    fn disassemble_bits(self) -> (r: String)
        requires
            self is ClbRIB || self is ClbRIW || self is ClbRRB || self is ClbRRW || self is StbRIB || self is StbRIW || self is StbRRB || self is StbRRW || self is TgbRIB || self is TgbRIW || self is TgbRRB || self is TgbRRW || self is TbitRIB || self is TbitRIW || self is TbitRRB || self is TbitRRW,
        ensures
            r@ == self.spec_disassemble(),
    {
        match self {
            Opcode::ClbRIB(d, bit) => two_operands_text(String::from_str("CLB"), byte_register_text(d), immediate_decimal(bit)),
            Opcode::ClbRIW(d, bit) => two_operands_text(String::from_str("CLB"), word_register_text(d), immediate_decimal(bit)),
            Opcode::ClbRRB(d, br) => two_operands_text(String::from_str("CLB"), byte_register_text(d), byte_register_text(br)),
            Opcode::ClbRRW(d, br) => two_operands_text(String::from_str("CLB"), word_register_text(d), byte_register_text(br)),
            Opcode::StbRIB(d, bit) => two_operands_text(String::from_str("STB"), byte_register_text(d), immediate_decimal(bit)),
            Opcode::StbRIW(d, bit) => two_operands_text(String::from_str("STB"), word_register_text(d), immediate_decimal(bit)),
            Opcode::StbRRB(d, br) => two_operands_text(String::from_str("STB"), byte_register_text(d), byte_register_text(br)),
            Opcode::StbRRW(d, br) => two_operands_text(String::from_str("STB"), word_register_text(d), byte_register_text(br)),
            Opcode::TgbRIB(d, bit) => two_operands_text(String::from_str("TGB"), byte_register_text(d), immediate_decimal(bit)),
            Opcode::TgbRIW(d, bit) => two_operands_text(String::from_str("TGB"), word_register_text(d), immediate_decimal(bit)),
            Opcode::TgbRRB(d, br) => two_operands_text(String::from_str("TGB"), byte_register_text(d), byte_register_text(br)),
            Opcode::TgbRRW(d, br) => two_operands_text(String::from_str("TGB"), word_register_text(d), byte_register_text(br)),
            Opcode::TbitRIB(d, bit) => two_operands_text(String::from_str("TBIT"), byte_register_text(d), immediate_decimal(bit)),
            Opcode::TbitRIW(d, bit) => two_operands_text(String::from_str("TBIT"), word_register_text(d), immediate_decimal(bit)),
            Opcode::TbitRRB(d, br) => two_operands_text(String::from_str("TBIT"), byte_register_text(d), byte_register_text(br)),
            Opcode::TbitRRW(d, br) => two_operands_text(String::from_str("TBIT"), word_register_text(d), byte_register_text(br)),
            _ => {
                assert(false);
                String::new()
            },
        }
    }
}

} // verus!
