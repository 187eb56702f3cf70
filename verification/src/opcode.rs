//! Instruction set: condition codes, ALU operations, and the encoding and
//! decoding of opcodes.

use vstd::prelude::*;

use crate::register::{ByteRegister, WordRegister};

verus! {

/// The reason a byte sequence does not decode to an instruction.
#[derive(Clone, Copy, Debug, PartialEq, Eq, Hash, PartialOrd, Ord, Structural)]
pub enum InvalidOpcodeError {
    UndefinedByteRegister,
    UndefinedWordRegister,
    UndefinedConditionCode,
    UndefinedOpcode,
}

impl InvalidOpcodeError {
    /// The description of the error.
    pub open spec fn spec_message(self) -> Seq<char> {
        match self {
            InvalidOpcodeError::UndefinedByteRegister => "undefined byte register"@,
            InvalidOpcodeError::UndefinedWordRegister => "undefined word register"@,
            InvalidOpcodeError::UndefinedConditionCode => "undefined condition code"@,
            InvalidOpcodeError::UndefinedOpcode => "undefined opcode"@,
        }
    }

    /// Returns the description of the error.
    pub fn message(self) -> (r: &'static str)
        ensures
            r@ == self.spec_message(),
    {
        match self {
            InvalidOpcodeError::UndefinedByteRegister => "undefined byte register",
            InvalidOpcodeError::UndefinedWordRegister => "undefined word register",
            InvalidOpcodeError::UndefinedConditionCode => "undefined condition code",
            InvalidOpcodeError::UndefinedOpcode => "undefined opcode",
        }
    }
}

/// A condition on the flags; codes 8 to 15 are the negations of codes 0 to 7.
#[derive(Clone, Copy, Debug, PartialEq, Eq, Hash, PartialOrd, Ord, Structural)]
pub enum ConditionCode {
    Z,
    C,
    S,
    O,
    LE,
    BE,
    L,
    False,
    NZ,
    NC,
    NS,
    NO,
    G,
    A,
    GE,
    True,
}

/// A binary ALU operation. Code 10 is reserved.
#[derive(Clone, Copy, Debug, PartialEq, Eq, Hash, PartialOrd, Ord, Structural)]
pub enum AluBinaryOperation {
    Add,
    Sub,
    Adc,
    Sbb,
    And,
    Xor,
    Bic,
    Or,
    Shl,
    Shr,
    Sar,
    Rol,
    Ror,
}

/// A unary ALU operation. Codes 10 to 14 are reserved.
#[derive(Clone, Copy, Debug, PartialEq, Eq, Hash, PartialOrd, Ord, Structural)]
pub enum AluUnaryOperation {
    Neg,
    Not,
    Inc,
    Dec,
    Abs,
    Sgxt,
    Swap,
    Popcnt,
    Rcl,
    Rcr,
    Zero,
}

impl Default for ConditionCode {
    /// An omitted condition code means "always".
    fn default() -> (r: Self)
        ensures
            r == ConditionCode::True,
    {
        ConditionCode::True
    }
}

impl ConditionCode {
    /// The condition that holds exactly when `self` does not.
    pub open spec fn spec_negate(self) -> ConditionCode {
        match self {
            ConditionCode::Z => ConditionCode::NZ,
            ConditionCode::C => ConditionCode::NC,
            ConditionCode::S => ConditionCode::NS,
            ConditionCode::O => ConditionCode::NO,
            ConditionCode::LE => ConditionCode::G,
            ConditionCode::BE => ConditionCode::A,
            ConditionCode::L => ConditionCode::GE,
            ConditionCode::False => ConditionCode::True,
            ConditionCode::NZ => ConditionCode::Z,
            ConditionCode::NC => ConditionCode::C,
            ConditionCode::NS => ConditionCode::S,
            ConditionCode::NO => ConditionCode::O,
            ConditionCode::G => ConditionCode::LE,
            ConditionCode::A => ConditionCode::BE,
            ConditionCode::GE => ConditionCode::L,
            ConditionCode::True => ConditionCode::False,
        }
    }

    /// Returns the condition that holds exactly when `self` does not.
    #[verifier::when_used_as_spec(spec_negate)]
    pub fn negate(self) -> (r: ConditionCode)
        ensures
            r == self.spec_negate(),
    {
        match self {
            ConditionCode::Z => ConditionCode::NZ,
            ConditionCode::C => ConditionCode::NC,
            ConditionCode::S => ConditionCode::NS,
            ConditionCode::O => ConditionCode::NO,
            ConditionCode::LE => ConditionCode::G,
            ConditionCode::BE => ConditionCode::A,
            ConditionCode::L => ConditionCode::GE,
            ConditionCode::False => ConditionCode::True,
            ConditionCode::NZ => ConditionCode::Z,
            ConditionCode::NC => ConditionCode::C,
            ConditionCode::NS => ConditionCode::S,
            ConditionCode::NO => ConditionCode::O,
            ConditionCode::G => ConditionCode::LE,
            ConditionCode::A => ConditionCode::BE,
            ConditionCode::GE => ConditionCode::L,
            ConditionCode::True => ConditionCode::False,
        }
    }
}

impl core::ops::Not for ConditionCode {
    type Output = ConditionCode;

    fn not(self) -> (r: ConditionCode)
        ensures
            r == self.spec_negate(),
    {
        self.negate()
    }
}

impl vstd::std_specs::ops::NotSpecImpl for ConditionCode {
    open spec fn obeys_not_spec() -> bool {
        true
    }

    open spec fn not_req(self) -> bool {
        true
    }

    open spec fn not_spec(self) -> ConditionCode {
        self.spec_negate()
    }
}

/// Negating a condition code twice gives it back, and negation flips the code's high bit.
pub proof fn lemma_negate_involution(cc: ConditionCode)
    ensures
        cc.spec_negate().spec_negate() == cc,
        cc.spec_negate() != cc,
        cc.spec_negate().spec_code() == (cc.spec_code() + 8) % 16,
{
}

impl ConditionCode {
    /// The 4-bit number that selects this condition in an instruction.
    pub open spec fn spec_code(self) -> u8 {
        match self {
            ConditionCode::Z => 0,
            ConditionCode::C => 1,
            ConditionCode::S => 2,
            ConditionCode::O => 3,
            ConditionCode::LE => 4,
            ConditionCode::BE => 5,
            ConditionCode::L => 6,
            ConditionCode::False => 7,
            ConditionCode::NZ => 8,
            ConditionCode::NC => 9,
            ConditionCode::NS => 10,
            ConditionCode::NO => 11,
            ConditionCode::G => 12,
            ConditionCode::A => 13,
            ConditionCode::GE => 14,
            ConditionCode::True => 15,
        }
    }

    /// The value selected by `code`, if the code is defined.
    pub open spec fn spec_from_code(code: u8) -> Option<ConditionCode> {
        if code == 0 {
            Some(ConditionCode::Z)
        } else if code == 1 {
            Some(ConditionCode::C)
        } else if code == 2 {
            Some(ConditionCode::S)
        } else if code == 3 {
            Some(ConditionCode::O)
        } else if code == 4 {
            Some(ConditionCode::LE)
        } else if code == 5 {
            Some(ConditionCode::BE)
        } else if code == 6 {
            Some(ConditionCode::L)
        } else if code == 7 {
            Some(ConditionCode::False)
        } else if code == 8 {
            Some(ConditionCode::NZ)
        } else if code == 9 {
            Some(ConditionCode::NC)
        } else if code == 10 {
            Some(ConditionCode::NS)
        } else if code == 11 {
            Some(ConditionCode::NO)
        } else if code == 12 {
            Some(ConditionCode::G)
        } else if code == 13 {
            Some(ConditionCode::A)
        } else if code == 14 {
            Some(ConditionCode::GE)
        } else if code == 15 {
            Some(ConditionCode::True)
        } else {
            None
        }
    }

    /// The mnemonic, as written in assembly.
    pub open spec fn spec_name(self) -> Seq<char> {
        match self {
            ConditionCode::Z => "Z"@,
            ConditionCode::C => "C"@,
            ConditionCode::S => "S"@,
            ConditionCode::O => "O"@,
            ConditionCode::LE => "LE"@,
            ConditionCode::BE => "BE"@,
            ConditionCode::L => "L"@,
            ConditionCode::False => "[FALSE]"@,
            ConditionCode::NZ => "NZ"@,
            ConditionCode::NC => "NC"@,
            ConditionCode::NS => "NS"@,
            ConditionCode::NO => "NO"@,
            ConditionCode::G => "G"@,
            ConditionCode::A => "A"@,
            ConditionCode::GE => "GE"@,
            ConditionCode::True => ""@,
        }
    }

    /// Returns the number that selects this value in an instruction.
    #[verifier::when_used_as_spec(spec_code)]
    pub fn code(self) -> (r: u8)
        ensures
            r == self.spec_code(),
            r < 16,
    {
        match self {
            ConditionCode::Z => 0,
            ConditionCode::C => 1,
            ConditionCode::S => 2,
            ConditionCode::O => 3,
            ConditionCode::LE => 4,
            ConditionCode::BE => 5,
            ConditionCode::L => 6,
            ConditionCode::False => 7,
            ConditionCode::NZ => 8,
            ConditionCode::NC => 9,
            ConditionCode::NS => 10,
            ConditionCode::NO => 11,
            ConditionCode::G => 12,
            ConditionCode::A => 13,
            ConditionCode::GE => 14,
            ConditionCode::True => 15,
        }
    }

    /// Returns the value selected by `code`, or `None` if the code is undefined.
    pub fn from_code(code: u8) -> (r: Option<ConditionCode>)
        ensures
            r == ConditionCode::spec_from_code(code),
            r matches Some(v) ==> v.spec_code() == code,
    {
        if code == 0 {
            Some(ConditionCode::Z)
        } else if code == 1 {
            Some(ConditionCode::C)
        } else if code == 2 {
            Some(ConditionCode::S)
        } else if code == 3 {
            Some(ConditionCode::O)
        } else if code == 4 {
            Some(ConditionCode::LE)
        } else if code == 5 {
            Some(ConditionCode::BE)
        } else if code == 6 {
            Some(ConditionCode::L)
        } else if code == 7 {
            Some(ConditionCode::False)
        } else if code == 8 {
            Some(ConditionCode::NZ)
        } else if code == 9 {
            Some(ConditionCode::NC)
        } else if code == 10 {
            Some(ConditionCode::NS)
        } else if code == 11 {
            Some(ConditionCode::NO)
        } else if code == 12 {
            Some(ConditionCode::G)
        } else if code == 13 {
            Some(ConditionCode::A)
        } else if code == 14 {
            Some(ConditionCode::GE)
        } else if code == 15 {
            Some(ConditionCode::True)
        } else {
            None
        }
    }

    /// Returns the mnemonic, as written in assembly.
    pub fn name(self) -> (r: &'static str)
        ensures
            r@ == self.spec_name(),
    {
        match self {
            ConditionCode::Z => "Z",
            ConditionCode::C => "C",
            ConditionCode::S => "S",
            ConditionCode::O => "O",
            ConditionCode::LE => "LE",
            ConditionCode::BE => "BE",
            ConditionCode::L => "L",
            ConditionCode::False => "[FALSE]",
            ConditionCode::NZ => "NZ",
            ConditionCode::NC => "NC",
            ConditionCode::NS => "NS",
            ConditionCode::NO => "NO",
            ConditionCode::G => "G",
            ConditionCode::A => "A",
            ConditionCode::GE => "GE",
            ConditionCode::True => "",
        }
    }
}

impl TryFrom<u8> for ConditionCode {
    type Error = InvalidOpcodeError;

    fn try_from(value: u8) -> (r: Result<Self, Self::Error>)
        ensures
            r == (match ConditionCode::spec_from_code(value) {
                Some(v) => Ok(v),
                None => Err(InvalidOpcodeError::UndefinedConditionCode),
            }),
    {
        match ConditionCode::from_code(value) {
            Some(v) => Ok(v),
            None => Err(InvalidOpcodeError::UndefinedConditionCode),
        }
    }
}

impl vstd::std_specs::convert::TryFromSpecImpl<u8> for ConditionCode {
    open spec fn obeys_try_from_spec() -> bool {
        true
    }

    open spec fn try_from_spec(v: u8) -> Result<Self, Self::Error> {
        match ConditionCode::spec_from_code(v) {
            Some(r) => Ok(r),
            None => Err(InvalidOpcodeError::UndefinedConditionCode),
        }
    }
}

impl AluBinaryOperation {
    /// The 4-bit number that selects this operation in an instruction.
    pub open spec fn spec_code(self) -> u8 {
        match self {
            AluBinaryOperation::Add => 0,
            AluBinaryOperation::Sub => 1,
            AluBinaryOperation::Adc => 2,
            AluBinaryOperation::Sbb => 3,
            AluBinaryOperation::And => 4,
            AluBinaryOperation::Xor => 5,
            AluBinaryOperation::Bic => 6,
            AluBinaryOperation::Or => 7,
            AluBinaryOperation::Shl => 8,
            AluBinaryOperation::Shr => 9,
            AluBinaryOperation::Sar => 11,
            AluBinaryOperation::Rol => 12,
            AluBinaryOperation::Ror => 13,
        }
    }

    /// The value selected by `code`, if the code is defined.
    pub open spec fn spec_from_code(code: u8) -> Option<AluBinaryOperation> {
        if code == 0 {
            Some(AluBinaryOperation::Add)
        } else if code == 1 {
            Some(AluBinaryOperation::Sub)
        } else if code == 2 {
            Some(AluBinaryOperation::Adc)
        } else if code == 3 {
            Some(AluBinaryOperation::Sbb)
        } else if code == 4 {
            Some(AluBinaryOperation::And)
        } else if code == 5 {
            Some(AluBinaryOperation::Xor)
        } else if code == 6 {
            Some(AluBinaryOperation::Bic)
        } else if code == 7 {
            Some(AluBinaryOperation::Or)
        } else if code == 8 {
            Some(AluBinaryOperation::Shl)
        } else if code == 9 {
            Some(AluBinaryOperation::Shr)
        } else if code == 11 {
            Some(AluBinaryOperation::Sar)
        } else if code == 12 {
            Some(AluBinaryOperation::Rol)
        } else if code == 13 {
            Some(AluBinaryOperation::Ror)
        } else {
            None
        }
    }

    /// The mnemonic, as written in assembly.
    pub open spec fn spec_name(self) -> Seq<char> {
        match self {
            AluBinaryOperation::Add => "ADD"@,
            AluBinaryOperation::Sub => "SUB"@,
            AluBinaryOperation::Adc => "ADC"@,
            AluBinaryOperation::Sbb => "SBB"@,
            AluBinaryOperation::And => "AND"@,
            AluBinaryOperation::Xor => "XOR"@,
            AluBinaryOperation::Bic => "BIC"@,
            AluBinaryOperation::Or => "OR"@,
            AluBinaryOperation::Shl => "SHL"@,
            AluBinaryOperation::Shr => "SHR"@,
            AluBinaryOperation::Sar => "SAR"@,
            AluBinaryOperation::Rol => "ROL"@,
            AluBinaryOperation::Ror => "ROR"@,
        }
    }

    /// Returns the number that selects this value in an instruction.
    #[verifier::when_used_as_spec(spec_code)]
    pub fn code(self) -> (r: u8)
        ensures
            r == self.spec_code(),
            r < 16,
    {
        match self {
            AluBinaryOperation::Add => 0,
            AluBinaryOperation::Sub => 1,
            AluBinaryOperation::Adc => 2,
            AluBinaryOperation::Sbb => 3,
            AluBinaryOperation::And => 4,
            AluBinaryOperation::Xor => 5,
            AluBinaryOperation::Bic => 6,
            AluBinaryOperation::Or => 7,
            AluBinaryOperation::Shl => 8,
            AluBinaryOperation::Shr => 9,
            AluBinaryOperation::Sar => 11,
            AluBinaryOperation::Rol => 12,
            AluBinaryOperation::Ror => 13,
        }
    }

    /// Returns the value selected by `code`, or `None` if the code is undefined.
    pub fn from_code(code: u8) -> (r: Option<AluBinaryOperation>)
        ensures
            r == AluBinaryOperation::spec_from_code(code),
            r matches Some(v) ==> v.spec_code() == code,
    {
        if code == 0 {
            Some(AluBinaryOperation::Add)
        } else if code == 1 {
            Some(AluBinaryOperation::Sub)
        } else if code == 2 {
            Some(AluBinaryOperation::Adc)
        } else if code == 3 {
            Some(AluBinaryOperation::Sbb)
        } else if code == 4 {
            Some(AluBinaryOperation::And)
        } else if code == 5 {
            Some(AluBinaryOperation::Xor)
        } else if code == 6 {
            Some(AluBinaryOperation::Bic)
        } else if code == 7 {
            Some(AluBinaryOperation::Or)
        } else if code == 8 {
            Some(AluBinaryOperation::Shl)
        } else if code == 9 {
            Some(AluBinaryOperation::Shr)
        } else if code == 11 {
            Some(AluBinaryOperation::Sar)
        } else if code == 12 {
            Some(AluBinaryOperation::Rol)
        } else if code == 13 {
            Some(AluBinaryOperation::Ror)
        } else {
            None
        }
    }

    /// Returns the mnemonic, as written in assembly.
    pub fn name(self) -> (r: &'static str)
        ensures
            r@ == self.spec_name(),
    {
        match self {
            AluBinaryOperation::Add => "ADD",
            AluBinaryOperation::Sub => "SUB",
            AluBinaryOperation::Adc => "ADC",
            AluBinaryOperation::Sbb => "SBB",
            AluBinaryOperation::And => "AND",
            AluBinaryOperation::Xor => "XOR",
            AluBinaryOperation::Bic => "BIC",
            AluBinaryOperation::Or => "OR",
            AluBinaryOperation::Shl => "SHL",
            AluBinaryOperation::Shr => "SHR",
            AluBinaryOperation::Sar => "SAR",
            AluBinaryOperation::Rol => "ROL",
            AluBinaryOperation::Ror => "ROR",
        }
    }
}

impl TryFrom<u8> for AluBinaryOperation {
    type Error = InvalidOpcodeError;

    fn try_from(value: u8) -> (r: Result<Self, Self::Error>)
        ensures
            r == (match AluBinaryOperation::spec_from_code(value) {
                Some(v) => Ok(v),
                None => Err(InvalidOpcodeError::UndefinedOpcode),
            }),
    {
        match AluBinaryOperation::from_code(value) {
            Some(v) => Ok(v),
            None => Err(InvalidOpcodeError::UndefinedOpcode),
        }
    }
}

impl vstd::std_specs::convert::TryFromSpecImpl<u8> for AluBinaryOperation {
    open spec fn obeys_try_from_spec() -> bool {
        true
    }

    open spec fn try_from_spec(v: u8) -> Result<Self, Self::Error> {
        match AluBinaryOperation::spec_from_code(v) {
            Some(r) => Ok(r),
            None => Err(InvalidOpcodeError::UndefinedOpcode),
        }
    }
}

impl AluUnaryOperation {
    /// The 4-bit number that selects this operation in an instruction.
    pub open spec fn spec_code(self) -> u8 {
        match self {
            AluUnaryOperation::Neg => 0,
            AluUnaryOperation::Not => 1,
            AluUnaryOperation::Inc => 2,
            AluUnaryOperation::Dec => 3,
            AluUnaryOperation::Abs => 4,
            AluUnaryOperation::Sgxt => 5,
            AluUnaryOperation::Swap => 6,
            AluUnaryOperation::Popcnt => 7,
            AluUnaryOperation::Rcl => 8,
            AluUnaryOperation::Rcr => 9,
            AluUnaryOperation::Zero => 15,
        }
    }

    /// The value selected by `code`, if the code is defined.
    pub open spec fn spec_from_code(code: u8) -> Option<AluUnaryOperation> {
        if code == 0 {
            Some(AluUnaryOperation::Neg)
        } else if code == 1 {
            Some(AluUnaryOperation::Not)
        } else if code == 2 {
            Some(AluUnaryOperation::Inc)
        } else if code == 3 {
            Some(AluUnaryOperation::Dec)
        } else if code == 4 {
            Some(AluUnaryOperation::Abs)
        } else if code == 5 {
            Some(AluUnaryOperation::Sgxt)
        } else if code == 6 {
            Some(AluUnaryOperation::Swap)
        } else if code == 7 {
            Some(AluUnaryOperation::Popcnt)
        } else if code == 8 {
            Some(AluUnaryOperation::Rcl)
        } else if code == 9 {
            Some(AluUnaryOperation::Rcr)
        } else if code == 15 {
            Some(AluUnaryOperation::Zero)
        } else {
            None
        }
    }

    /// The mnemonic, as written in assembly.
    pub open spec fn spec_name(self) -> Seq<char> {
        match self {
            AluUnaryOperation::Neg => "NEG"@,
            AluUnaryOperation::Not => "NOT"@,
            AluUnaryOperation::Inc => "INC"@,
            AluUnaryOperation::Dec => "DEC"@,
            AluUnaryOperation::Abs => "ABS"@,
            AluUnaryOperation::Sgxt => "SGXT"@,
            AluUnaryOperation::Swap => "SWAP"@,
            AluUnaryOperation::Popcnt => "POPCNT"@,
            AluUnaryOperation::Rcl => "RCL"@,
            AluUnaryOperation::Rcr => "RCR"@,
            AluUnaryOperation::Zero => "ZERO"@,
        }
    }

    /// Returns the number that selects this value in an instruction.
    #[verifier::when_used_as_spec(spec_code)]
    pub fn code(self) -> (r: u8)
        ensures
            r == self.spec_code(),
            r < 16,
    {
        match self {
            AluUnaryOperation::Neg => 0,
            AluUnaryOperation::Not => 1,
            AluUnaryOperation::Inc => 2,
            AluUnaryOperation::Dec => 3,
            AluUnaryOperation::Abs => 4,
            AluUnaryOperation::Sgxt => 5,
            AluUnaryOperation::Swap => 6,
            AluUnaryOperation::Popcnt => 7,
            AluUnaryOperation::Rcl => 8,
            AluUnaryOperation::Rcr => 9,
            AluUnaryOperation::Zero => 15,
        }
    }

    /// Returns the value selected by `code`, or `None` if the code is undefined.
    pub fn from_code(code: u8) -> (r: Option<AluUnaryOperation>)
        ensures
            r == AluUnaryOperation::spec_from_code(code),
            r matches Some(v) ==> v.spec_code() == code,
    {
        if code == 0 {
            Some(AluUnaryOperation::Neg)
        } else if code == 1 {
            Some(AluUnaryOperation::Not)
        } else if code == 2 {
            Some(AluUnaryOperation::Inc)
        } else if code == 3 {
            Some(AluUnaryOperation::Dec)
        } else if code == 4 {
            Some(AluUnaryOperation::Abs)
        } else if code == 5 {
            Some(AluUnaryOperation::Sgxt)
        } else if code == 6 {
            Some(AluUnaryOperation::Swap)
        } else if code == 7 {
            Some(AluUnaryOperation::Popcnt)
        } else if code == 8 {
            Some(AluUnaryOperation::Rcl)
        } else if code == 9 {
            Some(AluUnaryOperation::Rcr)
        } else if code == 15 {
            Some(AluUnaryOperation::Zero)
        } else {
            None
        }
    }

    /// Returns the mnemonic, as written in assembly.
    pub fn name(self) -> (r: &'static str)
        ensures
            r@ == self.spec_name(),
    {
        match self {
            AluUnaryOperation::Neg => "NEG",
            AluUnaryOperation::Not => "NOT",
            AluUnaryOperation::Inc => "INC",
            AluUnaryOperation::Dec => "DEC",
            AluUnaryOperation::Abs => "ABS",
            AluUnaryOperation::Sgxt => "SGXT",
            AluUnaryOperation::Swap => "SWAP",
            AluUnaryOperation::Popcnt => "POPCNT",
            AluUnaryOperation::Rcl => "RCL",
            AluUnaryOperation::Rcr => "RCR",
            AluUnaryOperation::Zero => "ZERO",
        }
    }
}

impl TryFrom<u8> for AluUnaryOperation {
    type Error = InvalidOpcodeError;

    fn try_from(value: u8) -> (r: Result<Self, Self::Error>)
        ensures
            r == (match AluUnaryOperation::spec_from_code(value) {
                Some(v) => Ok(v),
                None => Err(InvalidOpcodeError::UndefinedOpcode),
            }),
    {
        match AluUnaryOperation::from_code(value) {
            Some(v) => Ok(v),
            None => Err(InvalidOpcodeError::UndefinedOpcode),
        }
    }
}

impl vstd::std_specs::convert::TryFromSpecImpl<u8> for AluUnaryOperation {
    open spec fn obeys_try_from_spec() -> bool {
        true
    }

    open spec fn try_from_spec(v: u8) -> Result<Self, Self::Error> {
        match AluUnaryOperation::spec_from_code(v) {
            Some(r) => Ok(r),
            None => Err(InvalidOpcodeError::UndefinedOpcode),
        }
    }
}


impl TryFrom<u8> for ByteRegister {
    type Error = InvalidOpcodeError;

    fn try_from(value: u8) -> (r: Result<Self, Self::Error>)
        ensures
            r == (if value < 8 {
                Ok(ByteRegister::spec_from_code(value))
            } else {
                Err(InvalidOpcodeError::UndefinedByteRegister)
            }),
    {
        if value < 8 {
            Ok(ByteRegister::from_code(value))
        } else {
            Err(InvalidOpcodeError::UndefinedByteRegister)
        }
    }
}

impl vstd::std_specs::convert::TryFromSpecImpl<u8> for ByteRegister {
    open spec fn obeys_try_from_spec() -> bool {
        true
    }

    open spec fn try_from_spec(v: u8) -> Result<Self, Self::Error> {
        if v < 8 {
            Ok(ByteRegister::spec_from_code(v))
        } else {
            Err(InvalidOpcodeError::UndefinedByteRegister)
        }
    }
}

impl TryFrom<u8> for WordRegister {
    type Error = InvalidOpcodeError;

    fn try_from(value: u8) -> (r: Result<Self, Self::Error>)
        ensures
            r == (if value < 8 {
                Ok(WordRegister::spec_from_code(value))
            } else {
                Err(InvalidOpcodeError::UndefinedWordRegister)
            }),
    {
        if value < 8 {
            Ok(WordRegister::from_code(value))
        } else {
            Err(InvalidOpcodeError::UndefinedWordRegister)
        }
    }
}

impl vstd::std_specs::convert::TryFromSpecImpl<u8> for WordRegister {
    open spec fn obeys_try_from_spec() -> bool {
        true
    }

    open spec fn try_from_spec(v: u8) -> Result<Self, Self::Error> {
        if v < 8 {
            Ok(WordRegister::spec_from_code(v))
        } else {
            Err(InvalidOpcodeError::UndefinedWordRegister)
        }
    }
}

/// One byte.
#[verifier::opaque]
pub open spec fn enc_one(b0: int) -> Seq<u8> {
    seq![b0 as u8]
}

/// Two bytes.
#[verifier::opaque]
pub open spec fn enc_two(b0: int, b1: int) -> Seq<u8> {
    seq![b0 as u8, b1 as u8]
}

/// A byte followed by an 8-bit immediate.
#[verifier::opaque]
pub open spec fn enc_imm(b0: int, imm: u8) -> Seq<u8> {
    seq![b0 as u8, imm]
}

/// A byte followed by a signed 8-bit offset.
#[verifier::opaque]
pub open spec fn enc_rel(b0: int, off: i8) -> Seq<u8> {
    seq![b0 as u8, offset_byte(off)]
}

/// A byte followed by a big-endian word.
#[verifier::opaque]
pub open spec fn enc_word(b0: int, w: u16) -> Seq<u8> {
    seq![b0 as u8, hi_byte(w), lo_byte(w)]
}

/// Two bytes followed by a signed 8-bit offset.
#[verifier::opaque]
pub open spec fn enc_offset(b0: int, b1: int, off: i8) -> Seq<u8> {
    seq![b0 as u8, b1 as u8, offset_byte(off)]
}

/// Two bytes followed by an 8-bit immediate.
#[verifier::opaque]
pub open spec fn enc_imm2(b0: int, b1: int, imm: u8) -> Seq<u8> {
    seq![b0 as u8, b1 as u8, imm]
}

/// Two bytes followed by a big-endian word.
#[verifier::opaque]
pub open spec fn enc_imm_word(b0: int, b1: int, w: u16) -> Seq<u8> {
    seq![b0 as u8, b1 as u8, hi_byte(w), lo_byte(w)]
}

fn enc_one_exec(b0: u8) -> (r: Vec<u8>)
    ensures
        r@ == enc_one(b0 as int),
{
    reveal(enc_one);
    let mut v = Vec::new();
    v.push(b0);
    v
}

fn enc_two_exec(b0: u8, b1: u8) -> (r: Vec<u8>)
    ensures
        r@ == enc_two(b0 as int, b1 as int),
{
    reveal(enc_two);
    let mut v = Vec::new();
    v.push(b0);
    v.push(b1);
    v
}

fn enc_imm_exec(b0: u8, imm: u8) -> (r: Vec<u8>)
    ensures
        r@ == enc_imm(b0 as int, imm),
{
    reveal(enc_imm);
    reveal(enc_two);
    enc_two_exec(b0, imm)
}

fn enc_rel_exec(b0: u8, off: i8) -> (r: Vec<u8>)
    ensures
        r@ == enc_rel(b0 as int, off),
{
    reveal(enc_rel);
    reveal(enc_two);
    enc_two_exec(b0, offset_byte_exec(off))
}

fn enc_three_exec(b0: u8, b1: u8, b2: u8) -> (r: Vec<u8>)
    ensures
        r@ == seq![b0, b1, b2],
{
    let mut v = Vec::new();
    v.push(b0);
    v.push(b1);
    v.push(b2);
    v
}

fn enc_word_exec(b0: u8, w: u16) -> (r: Vec<u8>)
    ensures
        r@ == enc_word(b0 as int, w),
{
    reveal(enc_word);
    enc_three_exec(b0, hi_byte_exec(w), lo_byte_exec(w))
}

fn enc_offset_exec(b0: u8, b1: u8, off: i8) -> (r: Vec<u8>)
    ensures
        r@ == enc_offset(b0 as int, b1 as int, off),
{
    reveal(enc_offset);
    enc_three_exec(b0, b1, offset_byte_exec(off))
}

fn enc_imm2_exec(b0: u8, b1: u8, imm: u8) -> (r: Vec<u8>)
    ensures
        r@ == enc_imm2(b0 as int, b1 as int, imm),
{
    reveal(enc_imm2);
    enc_three_exec(b0, b1, imm)
}

fn enc_imm_word_exec(b0: u8, b1: u8, w: u16) -> (r: Vec<u8>)
    ensures
        r@ == enc_imm_word(b0 as int, b1 as int, w),
{
    reveal(enc_imm_word);
    let mut v = Vec::new();
    v.push(b0);
    v.push(b1);
    v.push(hi_byte_exec(w));
    v.push(lo_byte_exec(w));
    v
}

/// A decoded instruction. The names give the mnemonic, the condition (`Cc`), the
/// operand kinds (`R` register, `I` immediate, `A` address, `O` register-relative
/// offset, `X` program-relative offset) and the width (`B` byte, `W` word).
#[derive(Clone, Copy, Debug, PartialEq, Eq, Hash, PartialOrd, Ord, Structural)]
pub enum Opcode {
    MovRIB(ByteRegister, u8),
    MovRIW(WordRegister, u16),
    MovCcRRB(ConditionCode, ByteRegister, ByteRegister),
    MovCcRRW(ConditionCode, WordRegister, WordRegister),
    XchCcRRB(ConditionCode, ByteRegister, ByteRegister),
    XchCcRRW(ConditionCode, WordRegister, WordRegister),
    MovRAB(ByteRegister, u16),
    MovRAW(WordRegister, u16),
    MovCcROB(ConditionCode, ByteRegister, i8, WordRegister),
    MovCcROW(ConditionCode, WordRegister, i8, WordRegister),
    LeaCcROB(ConditionCode, ByteRegister, i8, WordRegister),
    LeaCcROW(ConditionCode, WordRegister, i8, WordRegister),
    JmpCcA(ConditionCode, u16),
    CallCcA(ConditionCode, u16),
    MovARB(u16, ByteRegister),
    MovARW(u16, WordRegister),
    MovCcORB(ConditionCode, i8, WordRegister, ByteRegister),
    MovCcORW(ConditionCode, i8, WordRegister, WordRegister),
    AlubRRB(AluBinaryOperation, ByteRegister, ByteRegister),
    AlubRRW(AluBinaryOperation, WordRegister, WordRegister),
    AlubRIB(AluBinaryOperation, ByteRegister, u8),
    AlubRIW(AluBinaryOperation, WordRegister, u16),
    AluuRB(AluUnaryOperation, ByteRegister),
    AluuRW(AluUnaryOperation, WordRegister),
    CpAlubRRB(AluBinaryOperation, ByteRegister, ByteRegister),
    CpAlubRRW(AluBinaryOperation, WordRegister, WordRegister),
    CpAlubRIB(AluBinaryOperation, ByteRegister, u8),
    CpAlubRIW(AluBinaryOperation, WordRegister, u16),
    CpAluuRB(AluUnaryOperation, ByteRegister),
    CpAluuRW(AluUnaryOperation, WordRegister),
    JrCcX(ConditionCode, i8),
    PushRB(ByteRegister),
    PushRW(WordRegister),
    PopRB(ByteRegister),
    PopRW(WordRegister),
    ClbRIB(ByteRegister, u8),
    ClbRIW(WordRegister, u8),
    ClbRRB(ByteRegister, ByteRegister),
    ClbRRW(WordRegister, ByteRegister),
    StbRIB(ByteRegister, u8),
    StbRIW(WordRegister, u8),
    StbRRB(ByteRegister, ByteRegister),
    StbRRW(WordRegister, ByteRegister),
    TgbRIB(ByteRegister, u8),
    TgbRIW(WordRegister, u8),
    TgbRRB(ByteRegister, ByteRegister),
    TgbRRW(WordRegister, ByteRegister),
    TbitRIB(ByteRegister, u8),
    TbitRIW(WordRegister, u8),
    TbitRRB(ByteRegister, ByteRegister),
    TbitRRW(WordRegister, ByteRegister),
    Nop,
    Reti,
    Halt,
}

impl Opcode {
    /// The bytes that encode the instruction (bit numbers are masked to four bits).
    pub open spec fn spec_to_vec(self) -> Seq<u8> {
        match self {
            Opcode::MovRIB(d, imm) => enc_imm(d.spec_code() as int, imm),
            Opcode::MovRIW(d, imm) => enc_word(0x08 + d.spec_code(), imm),
            Opcode::MovCcRRB(cc, d, s) => enc_two(0x10 + d.spec_code(), s.spec_code() * 32 + cc.spec_code()),
            Opcode::MovCcRRW(cc, d, s) => enc_two(0x18 + d.spec_code(), s.spec_code() * 32 + cc.spec_code()),
            Opcode::XchCcRRB(cc, d, s) => enc_two(0x10 + d.spec_code(), s.spec_code() * 32 + 0x10 + cc.spec_code()),
            Opcode::XchCcRRW(cc, d, s) => enc_two(0x18 + d.spec_code(), s.spec_code() * 32 + 0x10 + cc.spec_code()),
            Opcode::MovRAB(d, addr) => enc_word(0x20 + d.spec_code(), addr),
            Opcode::MovRAW(d, addr) => enc_word(0x28 + d.spec_code(), addr),
            Opcode::MovCcROB(cc, d, off, base) => enc_offset(0x30 + d.spec_code(), base.spec_code() * 32 + cc.spec_code(), off),
            Opcode::MovCcROW(cc, d, off, base) => enc_offset(0x38 + d.spec_code(), base.spec_code() * 32 + cc.spec_code(), off),
            Opcode::LeaCcROB(cc, d, off, base) => enc_offset(0x30 + d.spec_code(), base.spec_code() * 32 + 0x10 + cc.spec_code(), off),
            Opcode::LeaCcROW(cc, d, off, base) => enc_offset(0x38 + d.spec_code(), base.spec_code() * 32 + 0x10 + cc.spec_code(), off),
            Opcode::JmpCcA(cc, addr) => enc_word(0x40 + cc.spec_code(), addr),
            Opcode::CallCcA(cc, addr) => enc_word(0x50 + cc.spec_code(), addr),
            Opcode::MovARB(addr, s) => enc_word(0x60 + s.spec_code(), addr),
            Opcode::MovARW(addr, s) => enc_word(0x68 + s.spec_code(), addr),
            Opcode::MovCcORB(cc, off, base, s) => enc_offset(0x70 + s.spec_code(), base.spec_code() * 32 + cc.spec_code(), off),
            Opcode::MovCcORW(cc, off, base, s) => enc_offset(0x78 + s.spec_code(), base.spec_code() * 32 + cc.spec_code(), off),
            Opcode::AlubRRB(op, d, s) => enc_two(0x80 + d.spec_code(), s.spec_code() * 32 + 0x10 + op.spec_code()),
            Opcode::AlubRRW(op, d, s) => enc_two(0x88 + d.spec_code(), s.spec_code() * 32 + 0x10 + op.spec_code()),
            Opcode::AlubRIB(op, d, imm) => enc_imm2(0x80 + d.spec_code(), op.spec_code() as int, imm),
            Opcode::AlubRIW(op, d, imm) => enc_imm_word(0x88 + d.spec_code(), op.spec_code() as int, imm),
            Opcode::AluuRB(op, d) => enc_two(0x80 + d.spec_code(), 0x80 + op.spec_code()),
            Opcode::AluuRW(op, d) => enc_two(0x88 + d.spec_code(), 0x80 + op.spec_code()),
            Opcode::CpAlubRRB(op, d, s) => enc_two(0x90 + d.spec_code(), s.spec_code() * 32 + 0x10 + op.spec_code()),
            Opcode::CpAlubRRW(op, d, s) => enc_two(0x98 + d.spec_code(), s.spec_code() * 32 + 0x10 + op.spec_code()),
            Opcode::CpAlubRIB(op, d, imm) => enc_imm2(0x90 + d.spec_code(), op.spec_code() as int, imm),
            Opcode::CpAlubRIW(op, d, imm) => enc_imm_word(0x98 + d.spec_code(), op.spec_code() as int, imm),
            Opcode::CpAluuRB(op, d) => enc_two(0x90 + d.spec_code(), 0x80 + op.spec_code()),
            Opcode::CpAluuRW(op, d) => enc_two(0x98 + d.spec_code(), 0x80 + op.spec_code()),
            Opcode::JrCcX(cc, off) => enc_rel(0xA0 + cc.spec_code(), off),
            Opcode::PushRB(s) => enc_one(0xC0 + s.spec_code()),
            Opcode::PushRW(s) => enc_one(0xC8 + s.spec_code()),
            Opcode::PopRB(d) => enc_one(0xD0 + d.spec_code()),
            Opcode::PopRW(d) => enc_one(0xD8 + d.spec_code()),
            Opcode::ClbRIB(d, bit) => enc_two(0xE0 + d.spec_code(), (bit % 16) * 16 + 0),
            Opcode::ClbRIW(d, bit) => enc_two(0xE8 + d.spec_code(), (bit % 16) * 16 + 0),
            Opcode::ClbRRB(d, br) => enc_two(0xE0 + d.spec_code(), br.spec_code() * 32 + 8),
            Opcode::ClbRRW(d, br) => enc_two(0xE8 + d.spec_code(), br.spec_code() * 32 + 8),
            Opcode::StbRIB(d, bit) => enc_two(0xE0 + d.spec_code(), (bit % 16) * 16 + 1),
            Opcode::StbRIW(d, bit) => enc_two(0xE8 + d.spec_code(), (bit % 16) * 16 + 1),
            Opcode::StbRRB(d, br) => enc_two(0xE0 + d.spec_code(), br.spec_code() * 32 + 9),
            Opcode::StbRRW(d, br) => enc_two(0xE8 + d.spec_code(), br.spec_code() * 32 + 9),
            Opcode::TgbRIB(d, bit) => enc_two(0xE0 + d.spec_code(), (bit % 16) * 16 + 2),
            Opcode::TgbRIW(d, bit) => enc_two(0xE8 + d.spec_code(), (bit % 16) * 16 + 2),
            Opcode::TgbRRB(d, br) => enc_two(0xE0 + d.spec_code(), br.spec_code() * 32 + 10),
            Opcode::TgbRRW(d, br) => enc_two(0xE8 + d.spec_code(), br.spec_code() * 32 + 10),
            Opcode::TbitRIB(d, bit) => enc_two(0xE0 + d.spec_code(), (bit % 16) * 16 + 3),
            Opcode::TbitRIW(d, bit) => enc_two(0xE8 + d.spec_code(), (bit % 16) * 16 + 3),
            Opcode::TbitRRB(d, br) => enc_two(0xE0 + d.spec_code(), br.spec_code() * 32 + 11),
            Opcode::TbitRRW(d, br) => enc_two(0xE8 + d.spec_code(), br.spec_code() * 32 + 11),
            Opcode::Nop => enc_one(0xF0),
            Opcode::Reti => enc_one(0xF1),
            Opcode::Halt => enc_one(0xFF),
        }
    }

    /// Returns the bytes that encode the instruction. Bit numbers are masked to four bits.
    pub fn to_vec(self) -> (r: Vec<u8>)
        ensures
            r@ === self.spec_to_vec(),
    {
        // Naming every variant up front keeps the case analysis below cheap.
        assert(self is MovRIB || self is MovRIW || self is MovCcRRB || self is MovCcRRW || self is XchCcRRB || self is XchCcRRW || self is MovRAB || self is MovRAW || self is MovCcROB || self is MovCcROW || self is LeaCcROB || self is LeaCcROW || self is JmpCcA || self is CallCcA || self is MovARB || self is MovARW || self is MovCcORB || self is MovCcORW || self is AlubRRB || self is AlubRRW || self is AlubRIB || self is AlubRIW || self is AluuRB || self is AluuRW || self is CpAlubRRB || self is CpAlubRRW || self is CpAlubRIB || self is CpAlubRIW || self is CpAluuRB || self is CpAluuRW || self is JrCcX || self is PushRB || self is PushRW || self is PopRB || self is PopRW || self is ClbRIB || self is ClbRIW || self is ClbRRB || self is ClbRRW || self is StbRIB || self is StbRIW || self is StbRRB || self is StbRRW || self is TgbRIB || self is TgbRIW || self is TgbRRB || self is TgbRRW || self is TbitRIB || self is TbitRIW || self is TbitRRB || self is TbitRRW || self is Nop || self is Reti || self is Halt);
        match self {
            Opcode::MovRIB(d, imm) => enc_imm_exec(d.code(), imm),
            Opcode::MovRIW(d, imm) => enc_word_exec(0x08 + d.code(), imm),
            Opcode::MovCcRRB(cc, d, s) => enc_two_exec(0x10 + d.code(), s.code() * 32 + cc.code()),
            Opcode::MovCcRRW(cc, d, s) => enc_two_exec(0x18 + d.code(), s.code() * 32 + cc.code()),
            Opcode::XchCcRRB(cc, d, s) => enc_two_exec(0x10 + d.code(), s.code() * 32 + 0x10 + cc.code()),
            Opcode::XchCcRRW(cc, d, s) => enc_two_exec(0x18 + d.code(), s.code() * 32 + 0x10 + cc.code()),
            Opcode::MovRAB(d, addr) => enc_word_exec(0x20 + d.code(), addr),
            Opcode::MovRAW(d, addr) => enc_word_exec(0x28 + d.code(), addr),
            Opcode::MovCcROB(cc, d, off, base) => enc_offset_exec(0x30 + d.code(), base.code() * 32 + cc.code(), off),
            Opcode::MovCcROW(cc, d, off, base) => enc_offset_exec(0x38 + d.code(), base.code() * 32 + cc.code(), off),
            Opcode::LeaCcROB(cc, d, off, base) => enc_offset_exec(0x30 + d.code(), base.code() * 32 + 0x10 + cc.code(), off),
            Opcode::LeaCcROW(cc, d, off, base) => enc_offset_exec(0x38 + d.code(), base.code() * 32 + 0x10 + cc.code(), off),
            Opcode::JmpCcA(cc, addr) => enc_word_exec(0x40 + cc.code(), addr),
            Opcode::CallCcA(cc, addr) => enc_word_exec(0x50 + cc.code(), addr),
            Opcode::MovARB(addr, s) => enc_word_exec(0x60 + s.code(), addr),
            Opcode::MovARW(addr, s) => enc_word_exec(0x68 + s.code(), addr),
            Opcode::MovCcORB(cc, off, base, s) => enc_offset_exec(0x70 + s.code(), base.code() * 32 + cc.code(), off),
            Opcode::MovCcORW(cc, off, base, s) => enc_offset_exec(0x78 + s.code(), base.code() * 32 + cc.code(), off),
            Opcode::AlubRRB(op, d, s) => enc_two_exec(0x80 + d.code(), s.code() * 32 + 0x10 + op.code()),
            Opcode::AlubRRW(op, d, s) => enc_two_exec(0x88 + d.code(), s.code() * 32 + 0x10 + op.code()),
            Opcode::AlubRIB(op, d, imm) => enc_imm2_exec(0x80 + d.code(), op.code(), imm),
            Opcode::AlubRIW(op, d, imm) => enc_imm_word_exec(0x88 + d.code(), op.code(), imm),
            Opcode::AluuRB(op, d) => enc_two_exec(0x80 + d.code(), 0x80 + op.code()),
            Opcode::AluuRW(op, d) => enc_two_exec(0x88 + d.code(), 0x80 + op.code()),
            Opcode::CpAlubRRB(op, d, s) => enc_two_exec(0x90 + d.code(), s.code() * 32 + 0x10 + op.code()),
            Opcode::CpAlubRRW(op, d, s) => enc_two_exec(0x98 + d.code(), s.code() * 32 + 0x10 + op.code()),
            Opcode::CpAlubRIB(op, d, imm) => enc_imm2_exec(0x90 + d.code(), op.code(), imm),
            Opcode::CpAlubRIW(op, d, imm) => enc_imm_word_exec(0x98 + d.code(), op.code(), imm),
            Opcode::CpAluuRB(op, d) => enc_two_exec(0x90 + d.code(), 0x80 + op.code()),
            Opcode::CpAluuRW(op, d) => enc_two_exec(0x98 + d.code(), 0x80 + op.code()),
            Opcode::JrCcX(cc, off) => enc_rel_exec(0xA0 + cc.code(), off),
            Opcode::PushRB(s) => enc_one_exec(0xC0 + s.code()),
            Opcode::PushRW(s) => enc_one_exec(0xC8 + s.code()),
            Opcode::PopRB(d) => enc_one_exec(0xD0 + d.code()),
            Opcode::PopRW(d) => enc_one_exec(0xD8 + d.code()),
            Opcode::ClbRIB(d, bit) => enc_two_exec(0xE0 + d.code(), (bit % 16) * 16 + 0),
            Opcode::ClbRIW(d, bit) => enc_two_exec(0xE8 + d.code(), (bit % 16) * 16 + 0),
            Opcode::ClbRRB(d, br) => enc_two_exec(0xE0 + d.code(), br.code() * 32 + 8),
            Opcode::ClbRRW(d, br) => enc_two_exec(0xE8 + d.code(), br.code() * 32 + 8),
            Opcode::StbRIB(d, bit) => enc_two_exec(0xE0 + d.code(), (bit % 16) * 16 + 1),
            Opcode::StbRIW(d, bit) => enc_two_exec(0xE8 + d.code(), (bit % 16) * 16 + 1),
            Opcode::StbRRB(d, br) => enc_two_exec(0xE0 + d.code(), br.code() * 32 + 9),
            Opcode::StbRRW(d, br) => enc_two_exec(0xE8 + d.code(), br.code() * 32 + 9),
            Opcode::TgbRIB(d, bit) => enc_two_exec(0xE0 + d.code(), (bit % 16) * 16 + 2),
            Opcode::TgbRIW(d, bit) => enc_two_exec(0xE8 + d.code(), (bit % 16) * 16 + 2),
            Opcode::TgbRRB(d, br) => enc_two_exec(0xE0 + d.code(), br.code() * 32 + 10),
            Opcode::TgbRRW(d, br) => enc_two_exec(0xE8 + d.code(), br.code() * 32 + 10),
            Opcode::TbitRIB(d, bit) => enc_two_exec(0xE0 + d.code(), (bit % 16) * 16 + 3),
            Opcode::TbitRIW(d, bit) => enc_two_exec(0xE8 + d.code(), (bit % 16) * 16 + 3),
            Opcode::TbitRRB(d, br) => enc_two_exec(0xE0 + d.code(), br.code() * 32 + 11),
            Opcode::TbitRRW(d, br) => enc_two_exec(0xE8 + d.code(), br.code() * 32 + 11),
            Opcode::Nop => enc_one_exec(0xF0),
            Opcode::Reti => enc_one_exec(0xF1),
            Opcode::Halt => enc_one_exec(0xFF),
        }
    }
}

/// The high byte of a big-endian word.
pub open spec fn hi_byte(v: u16) -> u8 {
    (v / 256) as u8
}

/// The low byte of a big-endian word.
pub open spec fn lo_byte(v: u16) -> u8 {
    (v % 256) as u8
}

/// The word made of a high and a low byte.
pub open spec fn word_of(hi: u8, lo: u8) -> u16 {
    (hi * 256 + lo) as u16
}

/// The byte that holds a signed 8-bit offset (two's complement).
pub open spec fn offset_byte(o: i8) -> u8 {
    if o < 0 {
        (o + 256) as u8
    } else {
        o as u8
    }
}

/// The signed 8-bit offset held in a byte (two's complement).
pub open spec fn byte_offset(b: u8) -> i8 {
    if b >= 128 {
        (b - 256) as i8
    } else {
        b as i8
    }
}

fn hi_byte_exec(v: u16) -> (r: u8)
    ensures
        r == hi_byte(v),
{
    (v / 256) as u8
}

fn lo_byte_exec(v: u16) -> (r: u8)
    ensures
        r == lo_byte(v),
{
    (v % 256) as u8
}

fn word_of_exec(hi: u8, lo: u8) -> (r: u16)
    ensures
        r == word_of(hi, lo),
{
    hi as u16 * 256 + lo as u16
}

fn offset_byte_exec(o: i8) -> (r: u8)
    ensures
        r == offset_byte(o),
{
    if o < 0 {
        (o as i16 + 256) as u8
    } else {
        o as u8
    }
}

fn byte_offset_exec(b: u8) -> (r: i8)
    ensures
        r == byte_offset(b),
{
    if b >= 128 {
        (b as i16 - 256) as i8
    } else {
        b as i8
    }
}

/// The byte register named by the low three bits of `b`.
pub open spec fn breg(b: u8) -> ByteRegister {
    ByteRegister::spec_from_code(b % 8)
}

/// The word register named by the low three bits of `b`.
pub open spec fn wreg(b: u8) -> WordRegister {
    WordRegister::spec_from_code(b % 8)
}

/// The condition named by the low four bits of `b`; every 4-bit value names one.
pub open spec fn cc_of(b: u8) -> ConditionCode {
    ConditionCode::spec_from_code(b % 16).unwrap()
}

/// Every 4-bit value names a condition code.
pub proof fn lemma_cc_total(b: u8)
    ensures
        ConditionCode::spec_from_code(b % 16) is Some,
        cc_of(b).spec_code() == b % 16,
{
}

/// The operand for a `MOVcc`/`LEAcc` with an offset, or a store with an offset: the
/// instruction needs three bytes.
pub open spec fn decode_offset_group(bytes: Seq<u8>) -> Result<Opcode, InvalidOpcodeError>
    recommends
        bytes.len() >= 1,
{
    let b0 = bytes[0];
    let wide = (b0 / 8) % 2 == 1;
    if bytes.len() < 3 {
        Err(InvalidOpcodeError::UndefinedOpcode)
    } else {
        let b1 = bytes[1];
        let cc = cc_of(b1);
        let off = byte_offset(bytes[2]);
        let base = wreg(b1 / 32);
        let alt = (b1 / 16) % 2 == 1;
        if b0 / 16 == 3 {
            if wide {
                if alt {
                    Ok(Opcode::LeaCcROW(cc, wreg(b0), off, base))
                } else {
                    Ok(Opcode::MovCcROW(cc, wreg(b0), off, base))
                }
            } else {
                if alt {
                    Ok(Opcode::LeaCcROB(cc, breg(b0), off, base))
                } else {
                    Ok(Opcode::MovCcROB(cc, breg(b0), off, base))
                }
            }
        } else {
            if wide {
                Ok(Opcode::MovCcORW(cc, off, base, wreg(b0)))
            } else {
                Ok(Opcode::MovCcORB(cc, off, base, breg(b0)))
            }
        }
    }
}

/// Decoding of the ALU group (`alu`, `CPalu` and their aliases).
pub open spec fn decode_alu_group(bytes: Seq<u8>) -> Result<Opcode, InvalidOpcodeError>
    recommends
        bytes.len() >= 1,
{
    let b0 = bytes[0];
    let wide = (b0 / 8) % 2 == 1;
    let cp = b0 / 16 == 9;
    if bytes.len() < 2 {
        Err(InvalidOpcodeError::UndefinedOpcode)
    } else {
        let b1 = bytes[1];
        if (b1 / 16) % 2 == 1 {
            match AluBinaryOperation::spec_from_code(b1 % 16) {
                None => Err(InvalidOpcodeError::UndefinedOpcode),
                Some(op) => if wide {
                    if cp {
                        Ok(Opcode::CpAlubRRW(op, wreg(b0), wreg(b1 / 32)))
                    } else {
                        Ok(Opcode::AlubRRW(op, wreg(b0), wreg(b1 / 32)))
                    }
                } else {
                    if cp {
                        Ok(Opcode::CpAlubRRB(op, breg(b0), breg(b1 / 32)))
                    } else {
                        Ok(Opcode::AlubRRB(op, breg(b0), breg(b1 / 32)))
                    }
                },
            }
        } else if b1 / 128 == 1 {
            match AluUnaryOperation::spec_from_code(b1 % 16) {
                None => Err(InvalidOpcodeError::UndefinedOpcode),
                Some(op) => if wide {
                    if cp {
                        Ok(Opcode::CpAluuRW(op, wreg(b0)))
                    } else {
                        Ok(Opcode::AluuRW(op, wreg(b0)))
                    }
                } else {
                    if cp {
                        Ok(Opcode::CpAluuRB(op, breg(b0)))
                    } else {
                        Ok(Opcode::AluuRB(op, breg(b0)))
                    }
                },
            }
        } else {
            match AluBinaryOperation::spec_from_code(b1 % 16) {
                None => Err(InvalidOpcodeError::UndefinedOpcode),
                Some(op) => if wide {
                    if bytes.len() < 4 {
                        Err(InvalidOpcodeError::UndefinedOpcode)
                    } else if cp {
                        Ok(Opcode::CpAlubRIW(op, wreg(b0), word_of(bytes[2], bytes[3])))
                    } else {
                        Ok(Opcode::AlubRIW(op, wreg(b0), word_of(bytes[2], bytes[3])))
                    }
                } else {
                    if bytes.len() < 3 {
                        Err(InvalidOpcodeError::UndefinedOpcode)
                    } else if cp {
                        Ok(Opcode::CpAlubRIB(op, breg(b0), bytes[2]))
                    } else {
                        Ok(Opcode::AlubRIB(op, breg(b0), bytes[2]))
                    }
                },
            }
        }
    }
}

/// Decoding of the bit group (`CLB`, `STB`, `TGB`, `TBIT`).
pub open spec fn decode_bit_group(bytes: Seq<u8>) -> Result<Opcode, InvalidOpcodeError>
    recommends
        bytes.len() >= 1,
{
    let b0 = bytes[0];
    let wide = (b0 / 8) % 2 == 1;
    if bytes.len() < 2 {
        Err(InvalidOpcodeError::UndefinedOpcode)
    } else {
        let b1 = bytes[1];
        let sel = b1 % 4;
        if (b1 / 8) % 2 == 0 {
            let bit = b1 / 16;
            if wide {
                let r = wreg(b0);
                Ok(
                    if sel == 0 {
                        Opcode::ClbRIW(r, bit)
                    } else if sel == 1 {
                        Opcode::StbRIW(r, bit)
                    } else if sel == 2 {
                        Opcode::TgbRIW(r, bit)
                    } else {
                        Opcode::TbitRIW(r, bit)
                    },
                )
            } else {
                let r = breg(b0);
                Ok(
                    if sel == 0 {
                        Opcode::ClbRIB(r, bit)
                    } else if sel == 1 {
                        Opcode::StbRIB(r, bit)
                    } else if sel == 2 {
                        Opcode::TgbRIB(r, bit)
                    } else {
                        Opcode::TbitRIB(r, bit)
                    },
                )
            }
        } else {
            let br = breg(b1 / 32);
            if wide {
                let r = wreg(b0);
                Ok(
                    if sel == 0 {
                        Opcode::ClbRRW(r, br)
                    } else if sel == 1 {
                        Opcode::StbRRW(r, br)
                    } else if sel == 2 {
                        Opcode::TgbRRW(r, br)
                    } else {
                        Opcode::TbitRRW(r, br)
                    },
                )
            } else {
                let r = breg(b0);
                Ok(
                    if sel == 0 {
                        Opcode::ClbRRB(r, br)
                    } else if sel == 1 {
                        Opcode::StbRRB(r, br)
                    } else if sel == 2 {
                        Opcode::TgbRRB(r, br)
                    } else {
                        Opcode::TbitRRB(r, br)
                    },
                )
            }
        }
    }
}

/// The instruction at the front of `bytes`, as the instruction set defines it. Bytes
/// after the instruction are ignored; bits marked `.` in the encoding are ignored.
pub open spec fn spec_from_slice(bytes: Seq<u8>) -> Result<Opcode, InvalidOpcodeError> {
    if bytes.len() == 0 {
        Err(InvalidOpcodeError::UndefinedOpcode)
    } else {
        let b0 = bytes[0];
        let group = b0 / 16;
        let wide = (b0 / 8) % 2 == 1;
        if group == 0 {
            if wide {
                if bytes.len() < 3 {
                    Err(InvalidOpcodeError::UndefinedOpcode)
                } else {
                    Ok(Opcode::MovRIW(wreg(b0), word_of(bytes[1], bytes[2])))
                }
            } else {
                if bytes.len() < 2 {
                    Err(InvalidOpcodeError::UndefinedOpcode)
                } else {
                    Ok(Opcode::MovRIB(breg(b0), bytes[1]))
                }
            }
        } else if group == 1 {
            if bytes.len() < 2 {
                Err(InvalidOpcodeError::UndefinedOpcode)
            } else {
                let b1 = bytes[1];
                let cc = cc_of(b1);
                let xch = (b1 / 16) % 2 == 1;
                if wide {
                    if xch {
                        Ok(Opcode::XchCcRRW(cc, wreg(b0), wreg(b1 / 32)))
                    } else {
                        Ok(Opcode::MovCcRRW(cc, wreg(b0), wreg(b1 / 32)))
                    }
                } else {
                    if xch {
                        Ok(Opcode::XchCcRRB(cc, breg(b0), breg(b1 / 32)))
                    } else {
                        Ok(Opcode::MovCcRRB(cc, breg(b0), breg(b1 / 32)))
                    }
                }
            }
        } else if group == 2 || group == 4 || group == 5 || group == 6 {
            if bytes.len() < 3 {
                Err(InvalidOpcodeError::UndefinedOpcode)
            } else {
                let addr = word_of(bytes[1], bytes[2]);
                if group == 2 {
                    if wide {
                        Ok(Opcode::MovRAW(wreg(b0), addr))
                    } else {
                        Ok(Opcode::MovRAB(breg(b0), addr))
                    }
                } else if group == 4 {
                    Ok(Opcode::JmpCcA(cc_of(b0), addr))
                } else if group == 5 {
                    Ok(Opcode::CallCcA(cc_of(b0), addr))
                } else {
                    if wide {
                        Ok(Opcode::MovARW(addr, wreg(b0)))
                    } else {
                        Ok(Opcode::MovARB(addr, breg(b0)))
                    }
                }
            }
        } else if group == 3 || group == 7 {
            decode_offset_group(bytes)
        } else if group == 8 || group == 9 {
            decode_alu_group(bytes)
        } else if group == 10 {
            if bytes.len() < 2 {
                Err(InvalidOpcodeError::UndefinedOpcode)
            } else {
                Ok(Opcode::JrCcX(cc_of(b0), byte_offset(bytes[1])))
            }
        } else if group == 12 {
            if wide {
                Ok(Opcode::PushRW(wreg(b0)))
            } else {
                Ok(Opcode::PushRB(breg(b0)))
            }
        } else if group == 13 {
            if wide {
                Ok(Opcode::PopRW(wreg(b0)))
            } else {
                Ok(Opcode::PopRB(breg(b0)))
            }
        } else if group == 14 {
            decode_bit_group(bytes)
        } else if b0 == 0xF0 {
            Ok(Opcode::Nop)
        } else if b0 == 0xF1 {
            Ok(Opcode::Reti)
        } else if b0 == 0xFF {
            Ok(Opcode::Halt)
        } else {
            Err(InvalidOpcodeError::UndefinedOpcode)
        }
    }
}

fn cc_from(b: u8) -> (r: ConditionCode)
    ensures
        r == cc_of(b),
{
    proof {
        lemma_cc_total(b);
    }
    match ConditionCode::from_code(b % 16) {
        Some(cc) => cc,
        None => ConditionCode::True,
    }
}

fn decode_offset_group_exec(bytes: &[u8]) -> (r: Result<Opcode, InvalidOpcodeError>)
    requires
        bytes@.len() >= 1,
    ensures
        r == decode_offset_group(bytes@),
{
    let b0 = bytes[0];
    let wide = (b0 / 8) % 2 == 1;
    if bytes.len() < 3 {
        return Err(InvalidOpcodeError::UndefinedOpcode);
    }
    let b1 = bytes[1];
    let cc = cc_from(b1);
    let off = byte_offset_exec(bytes[2]);
    let base = WordRegister::from_code(b1 / 32);
    let alt = (b1 / 16) % 2 == 1;
    if b0 / 16 == 3 {
        if wide {
            let dst = WordRegister::from_code(b0);
            if alt {
                Ok(Opcode::LeaCcROW(cc, dst, off, base))
            } else {
                Ok(Opcode::MovCcROW(cc, dst, off, base))
            }
        } else {
            let dst = ByteRegister::from_code(b0);
            if alt {
                Ok(Opcode::LeaCcROB(cc, dst, off, base))
            } else {
                Ok(Opcode::MovCcROB(cc, dst, off, base))
            }
        }
    } else {
        if wide {
            Ok(Opcode::MovCcORW(cc, off, base, WordRegister::from_code(b0)))
        } else {
            Ok(Opcode::MovCcORB(cc, off, base, ByteRegister::from_code(b0)))
        }
    }
}

fn decode_alu_group_exec(bytes: &[u8]) -> (r: Result<Opcode, InvalidOpcodeError>)
    requires
        bytes@.len() >= 1,
    ensures
        r == decode_alu_group(bytes@),
{
    let b0 = bytes[0];
    let wide = (b0 / 8) % 2 == 1;
    let cp = b0 / 16 == 9;
    if bytes.len() < 2 {
        return Err(InvalidOpcodeError::UndefinedOpcode);
    }
    let b1 = bytes[1];
    if (b1 / 16) % 2 == 1 {
        let op = match AluBinaryOperation::from_code(b1 % 16) {
            None => return Err(InvalidOpcodeError::UndefinedOpcode),
            Some(op) => op,
        };
        if wide {
            let (dst, src) = (WordRegister::from_code(b0), WordRegister::from_code(b1 / 32));
            if cp {
                Ok(Opcode::CpAlubRRW(op, dst, src))
            } else {
                Ok(Opcode::AlubRRW(op, dst, src))
            }
        } else {
            let (dst, src) = (ByteRegister::from_code(b0), ByteRegister::from_code(b1 / 32));
            if cp {
                Ok(Opcode::CpAlubRRB(op, dst, src))
            } else {
                Ok(Opcode::AlubRRB(op, dst, src))
            }
        }
    } else if b1 / 128 == 1 {
        let op = match AluUnaryOperation::from_code(b1 % 16) {
            None => return Err(InvalidOpcodeError::UndefinedOpcode),
            Some(op) => op,
        };
        if wide {
            let dst = WordRegister::from_code(b0);
            if cp {
                Ok(Opcode::CpAluuRW(op, dst))
            } else {
                Ok(Opcode::AluuRW(op, dst))
            }
        } else {
            let dst = ByteRegister::from_code(b0);
            if cp {
                Ok(Opcode::CpAluuRB(op, dst))
            } else {
                Ok(Opcode::AluuRB(op, dst))
            }
        }
    } else {
        let op = match AluBinaryOperation::from_code(b1 % 16) {
            None => return Err(InvalidOpcodeError::UndefinedOpcode),
            Some(op) => op,
        };
        if wide {
            if bytes.len() < 4 {
                return Err(InvalidOpcodeError::UndefinedOpcode);
            }
            let dst = WordRegister::from_code(b0);
            let imm = word_of_exec(bytes[2], bytes[3]);
            if cp {
                Ok(Opcode::CpAlubRIW(op, dst, imm))
            } else {
                Ok(Opcode::AlubRIW(op, dst, imm))
            }
        } else {
            if bytes.len() < 3 {
                return Err(InvalidOpcodeError::UndefinedOpcode);
            }
            let dst = ByteRegister::from_code(b0);
            let imm = bytes[2];
            if cp {
                Ok(Opcode::CpAlubRIB(op, dst, imm))
            } else {
                Ok(Opcode::AlubRIB(op, dst, imm))
            }
        }
    }
}

fn decode_bit_group_exec(bytes: &[u8]) -> (r: Result<Opcode, InvalidOpcodeError>)
    requires
        bytes@.len() >= 1,
    ensures
        r == decode_bit_group(bytes@),
{
    let b0 = bytes[0];
    let wide = (b0 / 8) % 2 == 1;
    if bytes.len() < 2 {
        return Err(InvalidOpcodeError::UndefinedOpcode);
    }
    let b1 = bytes[1];
    let sel = b1 % 4;
    if (b1 / 8) % 2 == 0 {
        let bit = b1 / 16;
        if wide {
            let r = WordRegister::from_code(b0);
            Ok(
                if sel == 0 {
                    Opcode::ClbRIW(r, bit)
                } else if sel == 1 {
                    Opcode::StbRIW(r, bit)
                } else if sel == 2 {
                    Opcode::TgbRIW(r, bit)
                } else {
                    Opcode::TbitRIW(r, bit)
                },
            )
        } else {
            let r = ByteRegister::from_code(b0);
            Ok(
                if sel == 0 {
                    Opcode::ClbRIB(r, bit)
                } else if sel == 1 {
                    Opcode::StbRIB(r, bit)
                } else if sel == 2 {
                    Opcode::TgbRIB(r, bit)
                } else {
                    Opcode::TbitRIB(r, bit)
                },
            )
        }
    } else {
        let br = ByteRegister::from_code(b1 / 32);
        if wide {
            let r = WordRegister::from_code(b0);
            Ok(
                if sel == 0 {
                    Opcode::ClbRRW(r, br)
                } else if sel == 1 {
                    Opcode::StbRRW(r, br)
                } else if sel == 2 {
                    Opcode::TgbRRW(r, br)
                } else {
                    Opcode::TbitRRW(r, br)
                },
            )
        } else {
            let r = ByteRegister::from_code(b0);
            Ok(
                if sel == 0 {
                    Opcode::ClbRRB(r, br)
                } else if sel == 1 {
                    Opcode::StbRRB(r, br)
                } else if sel == 2 {
                    Opcode::TgbRRB(r, br)
                } else {
                    Opcode::TbitRRB(r, br)
                },
            )
        }
    }
}

impl Opcode {
    /// Decodes an `Opcode` from the front of `bytes`. Extra trailing bytes are
    /// permitted and ignored: only as many bytes as the instruction needs are read.
    pub fn from_slice(bytes: &[u8]) -> (r: Result<Opcode, InvalidOpcodeError>)
        ensures
            r == spec_from_slice(bytes@),
    {
        if bytes.len() == 0 {
            return Err(InvalidOpcodeError::UndefinedOpcode);
        }
        let b0 = bytes[0];
        let group = b0 / 16;
        let wide = (b0 / 8) % 2 == 1;
        if group == 0 {
            if wide {
                if bytes.len() < 3 {
                    Err(InvalidOpcodeError::UndefinedOpcode)
                } else {
                    Ok(Opcode::MovRIW(WordRegister::from_code(b0), word_of_exec(bytes[1], bytes[2])))
                }
            } else {
                if bytes.len() < 2 {
                    Err(InvalidOpcodeError::UndefinedOpcode)
                } else {
                    Ok(Opcode::MovRIB(ByteRegister::from_code(b0), bytes[1]))
                }
            }
        } else if group == 1 {
            if bytes.len() < 2 {
                return Err(InvalidOpcodeError::UndefinedOpcode);
            }
            let b1 = bytes[1];
            let cc = cc_from(b1);
            let xch = (b1 / 16) % 2 == 1;
            if wide {
                let (dst, src) = (WordRegister::from_code(b0), WordRegister::from_code(b1 / 32));
                if xch {
                    Ok(Opcode::XchCcRRW(cc, dst, src))
                } else {
                    Ok(Opcode::MovCcRRW(cc, dst, src))
                }
            } else {
                let (dst, src) = (ByteRegister::from_code(b0), ByteRegister::from_code(b1 / 32));
                if xch {
                    Ok(Opcode::XchCcRRB(cc, dst, src))
                } else {
                    Ok(Opcode::MovCcRRB(cc, dst, src))
                }
            }
        } else if group == 2 || group == 4 || group == 5 || group == 6 {
            if bytes.len() < 3 {
                return Err(InvalidOpcodeError::UndefinedOpcode);
            }
            let addr = word_of_exec(bytes[1], bytes[2]);
            if group == 2 {
                if wide {
                    Ok(Opcode::MovRAW(WordRegister::from_code(b0), addr))
                } else {
                    Ok(Opcode::MovRAB(ByteRegister::from_code(b0), addr))
                }
            } else if group == 4 {
                Ok(Opcode::JmpCcA(cc_from(b0), addr))
            } else if group == 5 {
                Ok(Opcode::CallCcA(cc_from(b0), addr))
            } else {
                if wide {
                    Ok(Opcode::MovARW(addr, WordRegister::from_code(b0)))
                } else {
                    Ok(Opcode::MovARB(addr, ByteRegister::from_code(b0)))
                }
            }
        } else if group == 3 || group == 7 {
            decode_offset_group_exec(bytes)
        } else if group == 8 || group == 9 {
            decode_alu_group_exec(bytes)
        } else if group == 10 {
            if bytes.len() < 2 {
                Err(InvalidOpcodeError::UndefinedOpcode)
            } else {
                Ok(Opcode::JrCcX(cc_from(b0), byte_offset_exec(bytes[1])))
            }
        } else if group == 12 {
            if wide {
                Ok(Opcode::PushRW(WordRegister::from_code(b0)))
            } else {
                Ok(Opcode::PushRB(ByteRegister::from_code(b0)))
            }
        } else if group == 13 {
            if wide {
                Ok(Opcode::PopRW(WordRegister::from_code(b0)))
            } else {
                Ok(Opcode::PopRB(ByteRegister::from_code(b0)))
            }
        } else if group == 14 {
            decode_bit_group_exec(bytes)
        } else if b0 == 0xF0 {
            Ok(Opcode::Nop)
        } else if b0 == 0xF1 {
            Ok(Opcode::Reti)
        } else if b0 == 0xFF {
            Ok(Opcode::Halt)
        } else {
            Err(InvalidOpcodeError::UndefinedOpcode)
        }
    }
}

impl Opcode {
    /// The instruction's bit-number operand, if it has one, fits the four bits that
    /// encode it; every other instruction is canonical.
    pub open spec fn spec_is_canonical(self) -> bool {
        match self {
            Opcode::ClbRIB(_, bit) | Opcode::ClbRIW(_, bit) | Opcode::StbRIB(_, bit)
            | Opcode::StbRIW(_, bit) | Opcode::TgbRIB(_, bit) | Opcode::TgbRIW(_, bit)
            | Opcode::TbitRIB(_, bit) | Opcode::TbitRIW(_, bit) => bit < 16,
            _ => true,
        }
    }
}

/// A register, condition or operation is given back by the code that selects it.
pub proof fn lemma_codes_round_trip(
    b: ByteRegister,
    w: WordRegister,
    cc: ConditionCode,
    bop: AluBinaryOperation,
    uop: AluUnaryOperation,
)
    ensures
        ByteRegister::spec_from_code(b.spec_code()) == b,
        b.spec_code() < 8,
        WordRegister::spec_from_code(w.spec_code()) == w,
        w.spec_code() < 8,
        ConditionCode::spec_from_code(cc.spec_code()) == Some(cc),
        cc.spec_code() < 16,
        AluBinaryOperation::spec_from_code(bop.spec_code()) == Some(bop),
        bop.spec_code() < 16,
        AluUnaryOperation::spec_from_code(uop.spec_code()) == Some(uop),
        uop.spec_code() < 16,
{
}

/// The bit fields of a byte made of a 3-bit, a 1-bit and a 4-bit field.
proof fn lemma_split_byte(b: u8, hi: int, mid: int, lo: int)
    requires
        0 <= hi < 8,
        0 <= mid < 2,
        0 <= lo < 16,
        b == hi * 32 + mid * 16 + lo,
    ensures
        b / 32 == hi,
        b / 16 == hi * 2 + mid,
        (b / 16) % 2 == mid,
        b % 16 == lo,
        b / 128 == hi / 4,
        (b / 8) % 2 == lo / 8,
        b % 8 == lo % 8,
        b % 4 == lo % 4,
{
    assert(b / 32 == hi && b / 16 == hi * 2 + mid && (b / 16) % 2 == mid && b % 16 == lo && b / 128 == hi / 4 && (b / 8) % 2 == lo / 8 && b % 8 == lo % 8 && b % 4 == lo % 4) by (nonlinear_arith)
        requires
            0 <= hi < 8,
            0 <= mid < 2,
            0 <= lo < 16,
            b == hi * 32 + mid * 16 + lo,
    ;
}

/// Decoding gives back the encoding of the instruction (one group of the table).
proof fn lemma_round_trip_immediate_moves(op: Opcode, extra: Seq<u8>)
    requires
        op.spec_is_canonical(),
        op is MovRIB || op is MovRIW,
    ensures
        spec_from_slice(op.spec_to_vec() + extra) == Ok::<Opcode, InvalidOpcodeError>(op),
{
    reveal(enc_one);
    reveal(enc_two);
    reveal(enc_imm);
    reveal(enc_rel);
    reveal(enc_word);
    reveal(enc_offset);
    reveal(enc_imm2);
    reveal(enc_imm_word);
    let bytes = op.spec_to_vec() + extra;
    match op {
        Opcode::MovRIB(d, imm) => {
            lemma_codes_round_trip(d, WordRegister::HA, ConditionCode::Z, AluBinaryOperation::Add, AluUnaryOperation::Neg);
            lemma_split_byte(bytes[0], 0, 0, d.spec_code() as int);
        },
        Opcode::MovRIW(d, imm) => {
            lemma_codes_round_trip(ByteRegister::H, d, ConditionCode::Z, AluBinaryOperation::Add, AluUnaryOperation::Neg);
            lemma_split_byte(bytes[0], 0, 0, 8 + d.spec_code());
        },
        _ => {},
    }
}

/// Decoding gives back the encoding of the instruction (one group of the table).
proof fn lemma_round_trip_register_moves(op: Opcode, extra: Seq<u8>)
    requires
        op.spec_is_canonical(),
        op is MovCcRRB || op is MovCcRRW || op is XchCcRRB || op is XchCcRRW,
    ensures
        spec_from_slice(op.spec_to_vec() + extra) == Ok::<Opcode, InvalidOpcodeError>(op),
{
    reveal(enc_one);
    reveal(enc_two);
    reveal(enc_imm);
    reveal(enc_rel);
    reveal(enc_word);
    reveal(enc_offset);
    reveal(enc_imm2);
    reveal(enc_imm_word);
    let bytes = op.spec_to_vec() + extra;
    match op {
        Opcode::MovCcRRB(cc, d, s) => {
            lemma_codes_round_trip(d, WordRegister::HA, cc, AluBinaryOperation::Add, AluUnaryOperation::Neg);
            lemma_codes_round_trip(s, WordRegister::HA, ConditionCode::Z, AluBinaryOperation::Add, AluUnaryOperation::Neg);
            lemma_split_byte(bytes[0], 0, 1, 0 + d.spec_code());
            lemma_split_byte(bytes[1], s.spec_code() as int, 0, cc.spec_code() as int);
        },
        Opcode::MovCcRRW(cc, d, s) => {
            lemma_codes_round_trip(ByteRegister::H, d, cc, AluBinaryOperation::Add, AluUnaryOperation::Neg);
            lemma_codes_round_trip(ByteRegister::H, s, ConditionCode::Z, AluBinaryOperation::Add, AluUnaryOperation::Neg);
            lemma_split_byte(bytes[0], 0, 1, 8 + d.spec_code());
            lemma_split_byte(bytes[1], s.spec_code() as int, 0, cc.spec_code() as int);
        },
        Opcode::XchCcRRB(cc, d, s) => {
            lemma_codes_round_trip(d, WordRegister::HA, cc, AluBinaryOperation::Add, AluUnaryOperation::Neg);
            lemma_codes_round_trip(s, WordRegister::HA, ConditionCode::Z, AluBinaryOperation::Add, AluUnaryOperation::Neg);
            lemma_split_byte(bytes[0], 0, 1, 0 + d.spec_code());
            lemma_split_byte(bytes[1], s.spec_code() as int, 1, cc.spec_code() as int);
        },
        Opcode::XchCcRRW(cc, d, s) => {
            lemma_codes_round_trip(ByteRegister::H, d, cc, AluBinaryOperation::Add, AluUnaryOperation::Neg);
            lemma_codes_round_trip(ByteRegister::H, s, ConditionCode::Z, AluBinaryOperation::Add, AluUnaryOperation::Neg);
            lemma_split_byte(bytes[0], 0, 1, 8 + d.spec_code());
            lemma_split_byte(bytes[1], s.spec_code() as int, 1, cc.spec_code() as int);
        },
        _ => {},
    }
}

/// Decoding gives back the encoding of the instruction (one group of the table).
proof fn lemma_round_trip_addressed(op: Opcode, extra: Seq<u8>)
    requires
        op.spec_is_canonical(),
        op is MovRAB || op is MovRAW || op is JmpCcA || op is CallCcA || op is MovARB || op is MovARW,
    ensures
        spec_from_slice(op.spec_to_vec() + extra) == Ok::<Opcode, InvalidOpcodeError>(op),
{
    reveal(enc_one);
    reveal(enc_two);
    reveal(enc_imm);
    reveal(enc_rel);
    reveal(enc_word);
    reveal(enc_offset);
    reveal(enc_imm2);
    reveal(enc_imm_word);
    let bytes = op.spec_to_vec() + extra;
    match op {
        Opcode::MovRAB(d, addr) => {
            lemma_codes_round_trip(d, WordRegister::HA, ConditionCode::Z, AluBinaryOperation::Add, AluUnaryOperation::Neg);
            lemma_split_byte(bytes[0], 1, 0, 0 + d.spec_code());
        },
        Opcode::MovRAW(d, addr) => {
            lemma_codes_round_trip(ByteRegister::H, d, ConditionCode::Z, AluBinaryOperation::Add, AluUnaryOperation::Neg);
            lemma_split_byte(bytes[0], 1, 0, 8 + d.spec_code());
        },
        Opcode::JmpCcA(cc, addr) => {
            lemma_codes_round_trip(ByteRegister::H, WordRegister::HA, cc, AluBinaryOperation::Add, AluUnaryOperation::Neg);
            lemma_split_byte(bytes[0], 2, 0, 0 + cc.spec_code());
        },
        Opcode::CallCcA(cc, addr) => {
            lemma_codes_round_trip(ByteRegister::H, WordRegister::HA, cc, AluBinaryOperation::Add, AluUnaryOperation::Neg);
            lemma_split_byte(bytes[0], 2, 1, 0 + cc.spec_code());
        },
        Opcode::MovARB(addr, s) => {
            lemma_codes_round_trip(s, WordRegister::HA, ConditionCode::Z, AluBinaryOperation::Add, AluUnaryOperation::Neg);
            lemma_split_byte(bytes[0], 3, 0, 0 + s.spec_code());
        },
        Opcode::MovARW(addr, s) => {
            lemma_codes_round_trip(ByteRegister::H, s, ConditionCode::Z, AluBinaryOperation::Add, AluUnaryOperation::Neg);
            lemma_split_byte(bytes[0], 3, 0, 8 + s.spec_code());
        },
        _ => {},
    }
}

/// Decoding gives back the encoding of the instruction (one group of the table).
proof fn lemma_round_trip_offset_moves(op: Opcode, extra: Seq<u8>)
    requires
        op.spec_is_canonical(),
        op is MovCcROB || op is MovCcROW || op is LeaCcROB || op is LeaCcROW || op is MovCcORB || op is MovCcORW,
    ensures
        spec_from_slice(op.spec_to_vec() + extra) == Ok::<Opcode, InvalidOpcodeError>(op),
{
    reveal(enc_one);
    reveal(enc_two);
    reveal(enc_imm);
    reveal(enc_rel);
    reveal(enc_word);
    reveal(enc_offset);
    reveal(enc_imm2);
    reveal(enc_imm_word);
    let bytes = op.spec_to_vec() + extra;
    match op {
        Opcode::MovCcROB(cc, d, off, base) => {
            lemma_codes_round_trip(d, base, cc, AluBinaryOperation::Add, AluUnaryOperation::Neg);
            lemma_split_byte(bytes[0], 1, 1, 0 + d.spec_code());
            lemma_split_byte(bytes[1], base.spec_code() as int, 0, cc.spec_code() as int);
        },
        Opcode::MovCcROW(cc, d, off, base) => {
            lemma_codes_round_trip(ByteRegister::H, d, cc, AluBinaryOperation::Add, AluUnaryOperation::Neg);
            lemma_codes_round_trip(ByteRegister::H, base, ConditionCode::Z, AluBinaryOperation::Add, AluUnaryOperation::Neg);
            lemma_split_byte(bytes[0], 1, 1, 8 + d.spec_code());
            lemma_split_byte(bytes[1], base.spec_code() as int, 0, cc.spec_code() as int);
        },
        Opcode::LeaCcROB(cc, d, off, base) => {
            lemma_codes_round_trip(d, base, cc, AluBinaryOperation::Add, AluUnaryOperation::Neg);
            lemma_split_byte(bytes[0], 1, 1, 0 + d.spec_code());
            lemma_split_byte(bytes[1], base.spec_code() as int, 1, cc.spec_code() as int);
        },
        Opcode::LeaCcROW(cc, d, off, base) => {
            lemma_codes_round_trip(ByteRegister::H, d, cc, AluBinaryOperation::Add, AluUnaryOperation::Neg);
            lemma_codes_round_trip(ByteRegister::H, base, ConditionCode::Z, AluBinaryOperation::Add, AluUnaryOperation::Neg);
            lemma_split_byte(bytes[0], 1, 1, 8 + d.spec_code());
            lemma_split_byte(bytes[1], base.spec_code() as int, 1, cc.spec_code() as int);
        },
        Opcode::MovCcORB(cc, off, base, s) => {
            lemma_codes_round_trip(s, base, cc, AluBinaryOperation::Add, AluUnaryOperation::Neg);
            lemma_split_byte(bytes[0], 3, 1, 0 + s.spec_code());
            lemma_split_byte(bytes[1], base.spec_code() as int, 0, cc.spec_code() as int);
        },
        Opcode::MovCcORW(cc, off, base, s) => {
            lemma_codes_round_trip(ByteRegister::H, base, cc, AluBinaryOperation::Add, AluUnaryOperation::Neg);
            lemma_codes_round_trip(ByteRegister::H, s, ConditionCode::Z, AluBinaryOperation::Add, AluUnaryOperation::Neg);
            lemma_split_byte(bytes[0], 3, 1, 8 + s.spec_code());
            lemma_split_byte(bytes[1], base.spec_code() as int, 0, cc.spec_code() as int);
        },
        _ => {},
    }
}

/// Decoding gives back the encoding of the instruction (one group of the table).
proof fn lemma_round_trip_alu(op: Opcode, extra: Seq<u8>)
    requires
        op.spec_is_canonical(),
        op is AlubRRB || op is AlubRRW || op is AlubRIB || op is AlubRIW || op is AluuRB || op is AluuRW || op is CpAlubRRB || op is CpAlubRRW || op is CpAlubRIB || op is CpAlubRIW || op is CpAluuRB || op is CpAluuRW,
    ensures
        spec_from_slice(op.spec_to_vec() + extra) == Ok::<Opcode, InvalidOpcodeError>(op),
{
    reveal(enc_one);
    reveal(enc_two);
    reveal(enc_imm);
    reveal(enc_rel);
    reveal(enc_word);
    reveal(enc_offset);
    reveal(enc_imm2);
    reveal(enc_imm_word);
    let bytes = op.spec_to_vec() + extra;
    match op {
        Opcode::AlubRRB(op, d, s) => {
            lemma_codes_round_trip(d, WordRegister::HA, ConditionCode::Z, op, AluUnaryOperation::Neg);
            lemma_codes_round_trip(s, WordRegister::HA, ConditionCode::Z, AluBinaryOperation::Add, AluUnaryOperation::Neg);
            lemma_split_byte(bytes[0], 4, 0, 0 + d.spec_code());
            lemma_split_byte(bytes[1], s.spec_code() as int, 1, op.spec_code() as int);
        },
        Opcode::AlubRRW(op, d, s) => {
            lemma_codes_round_trip(ByteRegister::H, d, ConditionCode::Z, op, AluUnaryOperation::Neg);
            lemma_codes_round_trip(ByteRegister::H, s, ConditionCode::Z, AluBinaryOperation::Add, AluUnaryOperation::Neg);
            lemma_split_byte(bytes[0], 4, 0, 8 + d.spec_code());
            lemma_split_byte(bytes[1], s.spec_code() as int, 1, op.spec_code() as int);
        },
        Opcode::AlubRIB(op, d, imm) => {
            lemma_codes_round_trip(d, WordRegister::HA, ConditionCode::Z, op, AluUnaryOperation::Neg);
            lemma_split_byte(bytes[0], 4, 0, 0 + d.spec_code());
            lemma_split_byte(bytes[1], 0, 0, op.spec_code() as int);
        },
        Opcode::AlubRIW(op, d, imm) => {
            lemma_codes_round_trip(ByteRegister::H, d, ConditionCode::Z, op, AluUnaryOperation::Neg);
            lemma_split_byte(bytes[0], 4, 0, 8 + d.spec_code());
            lemma_split_byte(bytes[1], 0, 0, op.spec_code() as int);
        },
        Opcode::AluuRB(op, d) => {
            lemma_codes_round_trip(d, WordRegister::HA, ConditionCode::Z, AluBinaryOperation::Add, op);
            lemma_split_byte(bytes[0], 4, 0, 0 + d.spec_code());
            lemma_split_byte(bytes[1], 4, 0, 0 + op.spec_code());
        },
        Opcode::AluuRW(op, d) => {
            lemma_codes_round_trip(ByteRegister::H, d, ConditionCode::Z, AluBinaryOperation::Add, op);
            lemma_split_byte(bytes[0], 4, 0, 8 + d.spec_code());
            lemma_split_byte(bytes[1], 4, 0, 0 + op.spec_code());
        },
        Opcode::CpAlubRRB(op, d, s) => {
            lemma_codes_round_trip(d, WordRegister::HA, ConditionCode::Z, op, AluUnaryOperation::Neg);
            lemma_codes_round_trip(s, WordRegister::HA, ConditionCode::Z, AluBinaryOperation::Add, AluUnaryOperation::Neg);
            lemma_split_byte(bytes[0], 4, 1, 0 + d.spec_code());
            lemma_split_byte(bytes[1], s.spec_code() as int, 1, op.spec_code() as int);
        },
        Opcode::CpAlubRRW(op, d, s) => {
            lemma_codes_round_trip(ByteRegister::H, d, ConditionCode::Z, op, AluUnaryOperation::Neg);
            lemma_codes_round_trip(ByteRegister::H, s, ConditionCode::Z, AluBinaryOperation::Add, AluUnaryOperation::Neg);
            lemma_split_byte(bytes[0], 4, 1, 8 + d.spec_code());
            lemma_split_byte(bytes[1], s.spec_code() as int, 1, op.spec_code() as int);
        },
        Opcode::CpAlubRIB(op, d, imm) => {
            lemma_codes_round_trip(d, WordRegister::HA, ConditionCode::Z, op, AluUnaryOperation::Neg);
            lemma_split_byte(bytes[0], 4, 1, 0 + d.spec_code());
            lemma_split_byte(bytes[1], 0, 0, op.spec_code() as int);
        },
        Opcode::CpAlubRIW(op, d, imm) => {
            lemma_codes_round_trip(ByteRegister::H, d, ConditionCode::Z, op, AluUnaryOperation::Neg);
            lemma_split_byte(bytes[0], 4, 1, 8 + d.spec_code());
            lemma_split_byte(bytes[1], 0, 0, op.spec_code() as int);
        },
        Opcode::CpAluuRB(op, d) => {
            lemma_codes_round_trip(d, WordRegister::HA, ConditionCode::Z, AluBinaryOperation::Add, op);
            lemma_split_byte(bytes[0], 4, 1, 0 + d.spec_code());
            lemma_split_byte(bytes[1], 4, 0, 0 + op.spec_code());
        },
        Opcode::CpAluuRW(op, d) => {
            lemma_codes_round_trip(ByteRegister::H, d, ConditionCode::Z, AluBinaryOperation::Add, op);
            lemma_split_byte(bytes[0], 4, 1, 8 + d.spec_code());
            lemma_split_byte(bytes[1], 4, 0, 0 + op.spec_code());
        },
        _ => {},
    }
}

/// Decoding gives back the encoding of the instruction (one group of the table).
proof fn lemma_round_trip_stack_and_control(op: Opcode, extra: Seq<u8>)
    requires
        op.spec_is_canonical(),
        op is JrCcX || op is PushRB || op is PushRW || op is PopRB || op is PopRW || op is Nop || op is Reti || op is Halt,
    ensures
        spec_from_slice(op.spec_to_vec() + extra) == Ok::<Opcode, InvalidOpcodeError>(op),
{
    reveal(enc_one);
    reveal(enc_two);
    reveal(enc_imm);
    reveal(enc_rel);
    reveal(enc_word);
    reveal(enc_offset);
    reveal(enc_imm2);
    reveal(enc_imm_word);
    let bytes = op.spec_to_vec() + extra;
    match op {
        Opcode::JrCcX(cc, off) => {
            lemma_codes_round_trip(ByteRegister::H, WordRegister::HA, cc, AluBinaryOperation::Add, AluUnaryOperation::Neg);
            lemma_split_byte(bytes[0], 5, 0, 0 + cc.spec_code());
        },
        Opcode::PushRB(s) => {
            lemma_codes_round_trip(s, WordRegister::HA, ConditionCode::Z, AluBinaryOperation::Add, AluUnaryOperation::Neg);
            lemma_split_byte(bytes[0], 6, 0, 0 + s.spec_code());
        },
        Opcode::PushRW(s) => {
            lemma_codes_round_trip(ByteRegister::H, s, ConditionCode::Z, AluBinaryOperation::Add, AluUnaryOperation::Neg);
            lemma_split_byte(bytes[0], 6, 0, 8 + s.spec_code());
        },
        Opcode::PopRB(d) => {
            lemma_codes_round_trip(d, WordRegister::HA, ConditionCode::Z, AluBinaryOperation::Add, AluUnaryOperation::Neg);
            lemma_split_byte(bytes[0], 6, 1, 0 + d.spec_code());
        },
        Opcode::PopRW(d) => {
            lemma_codes_round_trip(ByteRegister::H, d, ConditionCode::Z, AluBinaryOperation::Add, AluUnaryOperation::Neg);
            lemma_split_byte(bytes[0], 6, 1, 8 + d.spec_code());
        },
        Opcode::Nop => {
            lemma_split_byte(bytes[0], 7, 1, 0);
        },
        Opcode::Reti => {
            lemma_split_byte(bytes[0], 7, 1, 1);
        },
        Opcode::Halt => {
            lemma_split_byte(bytes[0], 7, 1, 15);
        },
        _ => {},
    }
}

/// Decoding gives back the encoding of the instruction (one group of the table).
#[verifier::spinoff_prover]
#[verifier::rlimit(30)]
proof fn lemma_round_trip_bits_immediate(op: Opcode, extra: Seq<u8>)
    requires
        op.spec_is_canonical(),
        op is ClbRIB || op is ClbRIW || op is StbRIB || op is StbRIW || op is TgbRIB || op is TgbRIW || op is TbitRIB || op is TbitRIW,
    ensures
        spec_from_slice(op.spec_to_vec() + extra) == Ok::<Opcode, InvalidOpcodeError>(op),
{
    reveal(enc_one);
    reveal(enc_two);
    reveal(enc_imm);
    reveal(enc_rel);
    reveal(enc_word);
    reveal(enc_offset);
    reveal(enc_imm2);
    reveal(enc_imm_word);
    let bytes = op.spec_to_vec() + extra;
    match op {
        Opcode::ClbRIB(d, bit) => {
            lemma_codes_round_trip(d, WordRegister::HA, ConditionCode::Z, AluBinaryOperation::Add, AluUnaryOperation::Neg);
            lemma_split_byte(bytes[0], 7, 0, 0 + d.spec_code());
            lemma_split_byte(bytes[1], bit as int / 2, bit as int % 2, 0);
        },
        Opcode::ClbRIW(d, bit) => {
            lemma_codes_round_trip(ByteRegister::H, d, ConditionCode::Z, AluBinaryOperation::Add, AluUnaryOperation::Neg);
            lemma_split_byte(bytes[0], 7, 0, 8 + d.spec_code());
            lemma_split_byte(bytes[1], bit as int / 2, bit as int % 2, 0);
        },
        Opcode::StbRIB(d, bit) => {
            lemma_codes_round_trip(d, WordRegister::HA, ConditionCode::Z, AluBinaryOperation::Add, AluUnaryOperation::Neg);
            lemma_split_byte(bytes[0], 7, 0, 0 + d.spec_code());
            lemma_split_byte(bytes[1], bit as int / 2, bit as int % 2, 1);
        },
        Opcode::StbRIW(d, bit) => {
            lemma_codes_round_trip(ByteRegister::H, d, ConditionCode::Z, AluBinaryOperation::Add, AluUnaryOperation::Neg);
            lemma_split_byte(bytes[0], 7, 0, 8 + d.spec_code());
            lemma_split_byte(bytes[1], bit as int / 2, bit as int % 2, 1);
        },
        Opcode::TgbRIB(d, bit) => {
            lemma_codes_round_trip(d, WordRegister::HA, ConditionCode::Z, AluBinaryOperation::Add, AluUnaryOperation::Neg);
            lemma_split_byte(bytes[0], 7, 0, 0 + d.spec_code());
            lemma_split_byte(bytes[1], bit as int / 2, bit as int % 2, 2);
        },
        Opcode::TgbRIW(d, bit) => {
            lemma_codes_round_trip(ByteRegister::H, d, ConditionCode::Z, AluBinaryOperation::Add, AluUnaryOperation::Neg);
            lemma_split_byte(bytes[0], 7, 0, 8 + d.spec_code());
            lemma_split_byte(bytes[1], bit as int / 2, bit as int % 2, 2);
        },
        Opcode::TbitRIB(d, bit) => {
            lemma_codes_round_trip(d, WordRegister::HA, ConditionCode::Z, AluBinaryOperation::Add, AluUnaryOperation::Neg);
            lemma_split_byte(bytes[0], 7, 0, 0 + d.spec_code());
            lemma_split_byte(bytes[1], bit as int / 2, bit as int % 2, 3);
        },
        Opcode::TbitRIW(d, bit) => {
            lemma_codes_round_trip(ByteRegister::H, d, ConditionCode::Z, AluBinaryOperation::Add, AluUnaryOperation::Neg);
            lemma_split_byte(bytes[0], 7, 0, 8 + d.spec_code());
            lemma_split_byte(bytes[1], bit as int / 2, bit as int % 2, 3);
        },
        _ => {},
    }
}

/// Decoding gives back the encoding of the instruction (one group of the table).
proof fn lemma_round_trip_bits_register(op: Opcode, extra: Seq<u8>)
    requires
        op.spec_is_canonical(),
        op is ClbRRB || op is ClbRRW || op is StbRRB || op is StbRRW || op is TgbRRB || op is TgbRRW || op is TbitRRB || op is TbitRRW,
    ensures
        spec_from_slice(op.spec_to_vec() + extra) == Ok::<Opcode, InvalidOpcodeError>(op),
{
    reveal(enc_one);
    reveal(enc_two);
    reveal(enc_imm);
    reveal(enc_rel);
    reveal(enc_word);
    reveal(enc_offset);
    reveal(enc_imm2);
    reveal(enc_imm_word);
    let bytes = op.spec_to_vec() + extra;
    match op {
        Opcode::ClbRRB(d, br) => {
            lemma_codes_round_trip(d, WordRegister::HA, ConditionCode::Z, AluBinaryOperation::Add, AluUnaryOperation::Neg);
            lemma_codes_round_trip(br, WordRegister::HA, ConditionCode::Z, AluBinaryOperation::Add, AluUnaryOperation::Neg);
            lemma_split_byte(bytes[0], 7, 0, 0 + d.spec_code());
            lemma_split_byte(bytes[1], br.spec_code() as int, 0, 8);
        },
        Opcode::ClbRRW(d, br) => {
            lemma_codes_round_trip(br, d, ConditionCode::Z, AluBinaryOperation::Add, AluUnaryOperation::Neg);
            lemma_split_byte(bytes[0], 7, 0, 8 + d.spec_code());
            lemma_split_byte(bytes[1], br.spec_code() as int, 0, 8);
        },
        Opcode::StbRRB(d, br) => {
            lemma_codes_round_trip(d, WordRegister::HA, ConditionCode::Z, AluBinaryOperation::Add, AluUnaryOperation::Neg);
            lemma_codes_round_trip(br, WordRegister::HA, ConditionCode::Z, AluBinaryOperation::Add, AluUnaryOperation::Neg);
            lemma_split_byte(bytes[0], 7, 0, 0 + d.spec_code());
            lemma_split_byte(bytes[1], br.spec_code() as int, 0, 9);
        },
        Opcode::StbRRW(d, br) => {
            lemma_codes_round_trip(br, d, ConditionCode::Z, AluBinaryOperation::Add, AluUnaryOperation::Neg);
            lemma_split_byte(bytes[0], 7, 0, 8 + d.spec_code());
            lemma_split_byte(bytes[1], br.spec_code() as int, 0, 9);
        },
        Opcode::TgbRRB(d, br) => {
            lemma_codes_round_trip(d, WordRegister::HA, ConditionCode::Z, AluBinaryOperation::Add, AluUnaryOperation::Neg);
            lemma_codes_round_trip(br, WordRegister::HA, ConditionCode::Z, AluBinaryOperation::Add, AluUnaryOperation::Neg);
            lemma_split_byte(bytes[0], 7, 0, 0 + d.spec_code());
            lemma_split_byte(bytes[1], br.spec_code() as int, 0, 10);
        },
        Opcode::TgbRRW(d, br) => {
            lemma_codes_round_trip(br, d, ConditionCode::Z, AluBinaryOperation::Add, AluUnaryOperation::Neg);
            lemma_split_byte(bytes[0], 7, 0, 8 + d.spec_code());
            lemma_split_byte(bytes[1], br.spec_code() as int, 0, 10);
        },
        Opcode::TbitRRB(d, br) => {
            lemma_codes_round_trip(d, WordRegister::HA, ConditionCode::Z, AluBinaryOperation::Add, AluUnaryOperation::Neg);
            lemma_codes_round_trip(br, WordRegister::HA, ConditionCode::Z, AluBinaryOperation::Add, AluUnaryOperation::Neg);
            lemma_split_byte(bytes[0], 7, 0, 0 + d.spec_code());
            lemma_split_byte(bytes[1], br.spec_code() as int, 0, 11);
        },
        Opcode::TbitRRW(d, br) => {
            lemma_codes_round_trip(br, d, ConditionCode::Z, AluBinaryOperation::Add, AluUnaryOperation::Neg);
            lemma_split_byte(bytes[0], 7, 0, 8 + d.spec_code());
            lemma_split_byte(bytes[1], br.spec_code() as int, 0, 11);
        },
        _ => {},
    }
}

/// Decoding the encoding of a canonical instruction gives the instruction back,
/// whatever bytes follow it.
pub proof fn lemma_from_slice_to_vec(op: Opcode, extra: Seq<u8>)
    requires
        op.spec_is_canonical(),
    ensures
        spec_from_slice(op.spec_to_vec() + extra) == Ok::<Opcode, InvalidOpcodeError>(op),
{
    if op is MovRIB || op is MovRIW {
        lemma_round_trip_immediate_moves(op, extra);
    } else if op is MovCcRRB || op is MovCcRRW || op is XchCcRRB || op is XchCcRRW {
        lemma_round_trip_register_moves(op, extra);
    } else if op is MovRAB || op is MovRAW || op is JmpCcA || op is CallCcA || op is MovARB || op is MovARW {
        lemma_round_trip_addressed(op, extra);
    } else if op is MovCcROB || op is MovCcROW || op is LeaCcROB || op is LeaCcROW || op is MovCcORB || op is MovCcORW {
        lemma_round_trip_offset_moves(op, extra);
    } else if op is AlubRRB || op is AlubRRW || op is AlubRIB || op is AlubRIW || op is AluuRB || op is AluuRW || op is CpAlubRRB || op is CpAlubRRW || op is CpAlubRIB || op is CpAlubRIW || op is CpAluuRB || op is CpAluuRW {
        lemma_round_trip_alu(op, extra);
    } else if op is JrCcX || op is PushRB || op is PushRW || op is PopRB || op is PopRW || op is Nop || op is Reti || op is Halt {
        lemma_round_trip_stack_and_control(op, extra);
    } else if op is ClbRIB || op is ClbRIW || op is StbRIB || op is StbRIW || op is TgbRIB || op is TgbRIW || op is TbitRIB || op is TbitRIW {
        lemma_round_trip_bits_immediate(op, extra);
    } else if op is ClbRRB || op is ClbRRW || op is StbRRB || op is StbRRW || op is TgbRRB || op is TgbRRW || op is TbitRRB || op is TbitRRW {
        lemma_round_trip_bits_register(op, extra);
    }
}


/// The first four bytes of `bytes + extra` are those of `bytes`, as far as `bytes` goes.
proof fn lemma_extend_bytes(bytes: Seq<u8>, extra: Seq<u8>)
    ensures
        bytes.len() >= 1 ==> (bytes + extra)[0] == bytes[0],
        bytes.len() >= 2 ==> (bytes + extra)[1] == bytes[1],
        bytes.len() >= 3 ==> (bytes + extra)[2] == bytes[2],
        bytes.len() >= 4 ==> (bytes + extra)[3] == bytes[3],
        (bytes + extra).len() >= bytes.len(),
{
}

/// Bytes after an instruction do not change what it decodes to.
pub proof fn lemma_from_slice_ignores_trailing(bytes: Seq<u8>, extra: Seq<u8>)
    requires
        spec_from_slice(bytes) is Ok,
    ensures
        spec_from_slice(bytes + extra) == spec_from_slice(bytes),
{
    lemma_extend_bytes(bytes, extra);
    let b0 = bytes[0];
    if b0 / 16 == 3 || b0 / 16 == 7 {
        assert(decode_offset_group(bytes + extra) == decode_offset_group(bytes));
    } else if b0 / 16 == 8 || b0 / 16 == 9 {
        assert(decode_alu_group(bytes + extra) == decode_alu_group(bytes));
    } else if b0 / 16 == 14 {
        assert(decode_bit_group(bytes + extra) == decode_bit_group(bytes));
    }
}

impl Opcode {
    /// The number of bytes in the instruction's encoding.
    pub open spec fn spec_len(self) -> nat {
        match self {
            Opcode::MovRIB(..) => 2,
            Opcode::MovRIW(..) => 3,
            Opcode::MovCcRRB(..) => 2,
            Opcode::MovCcRRW(..) => 2,
            Opcode::XchCcRRB(..) => 2,
            Opcode::XchCcRRW(..) => 2,
            Opcode::MovRAB(..) => 3,
            Opcode::MovRAW(..) => 3,
            Opcode::MovCcROB(..) => 3,
            Opcode::MovCcROW(..) => 3,
            Opcode::LeaCcROB(..) => 3,
            Opcode::LeaCcROW(..) => 3,
            Opcode::JmpCcA(..) => 3,
            Opcode::CallCcA(..) => 3,
            Opcode::MovARB(..) => 3,
            Opcode::MovARW(..) => 3,
            Opcode::MovCcORB(..) => 3,
            Opcode::MovCcORW(..) => 3,
            Opcode::AlubRRB(..) => 2,
            Opcode::AlubRRW(..) => 2,
            Opcode::AlubRIB(..) => 3,
            Opcode::AlubRIW(..) => 4,
            Opcode::AluuRB(..) => 2,
            Opcode::AluuRW(..) => 2,
            Opcode::CpAlubRRB(..) => 2,
            Opcode::CpAlubRRW(..) => 2,
            Opcode::CpAlubRIB(..) => 3,
            Opcode::CpAlubRIW(..) => 4,
            Opcode::CpAluuRB(..) => 2,
            Opcode::CpAluuRW(..) => 2,
            Opcode::JrCcX(..) => 2,
            Opcode::PushRB(..) => 1,
            Opcode::PushRW(..) => 1,
            Opcode::PopRB(..) => 1,
            Opcode::PopRW(..) => 1,
            Opcode::ClbRIB(..) => 2,
            Opcode::ClbRIW(..) => 2,
            Opcode::ClbRRB(..) => 2,
            Opcode::ClbRRW(..) => 2,
            Opcode::StbRIB(..) => 2,
            Opcode::StbRIW(..) => 2,
            Opcode::StbRRB(..) => 2,
            Opcode::StbRRW(..) => 2,
            Opcode::TgbRIB(..) => 2,
            Opcode::TgbRIW(..) => 2,
            Opcode::TgbRRB(..) => 2,
            Opcode::TgbRRW(..) => 2,
            Opcode::TbitRIB(..) => 2,
            Opcode::TbitRIW(..) => 2,
            Opcode::TbitRRB(..) => 2,
            Opcode::TbitRRW(..) => 2,
            Opcode::Nop => 1,
            Opcode::Reti => 1,
            Opcode::Halt => 1,
        }
    }
}

/// The number of bytes each encoding shape gives.
proof fn lemma_encoding_lengths()
    ensures
        forall|b0: int| #[trigger] enc_one(b0).len() == 1,
        forall|b0: int, b1: int| #[trigger] enc_two(b0, b1).len() == 2,
        forall|b0: int, imm: u8| #[trigger] enc_imm(b0, imm).len() == 2,
        forall|b0: int, off: i8| #[trigger] enc_rel(b0, off).len() == 2,
        forall|b0: int, w: u16| #[trigger] enc_word(b0, w).len() == 3,
        forall|b0: int, b1: int, off: i8| #[trigger] enc_offset(b0, b1, off).len() == 3,
        forall|b0: int, b1: int, imm: u8| #[trigger] enc_imm2(b0, b1, imm).len() == 3,
        forall|b0: int, b1: int, w: u16| #[trigger] enc_imm_word(b0, b1, w).len() == 4,
{
    reveal(enc_one);
    reveal(enc_two);
    reveal(enc_imm);
    reveal(enc_rel);
    reveal(enc_word);
    reveal(enc_offset);
    reveal(enc_imm2);
    reveal(enc_imm_word);
}

/// The encoding of an instruction has `spec_len` bytes, between one and four.
pub proof fn lemma_to_vec_len(op: Opcode)
    ensures
        op.spec_to_vec().len() == op.spec_len(),
        1 <= op.spec_len() <= 4,
{
    lemma_encoding_lengths();
}


/// A decoded instruction is canonical, and its encoding is no longer than the bytes
/// it was decoded from.
pub proof fn lemma_from_slice_length(bytes: Seq<u8>)
    requires
        spec_from_slice(bytes) is Ok,
    ensures
        spec_from_slice(bytes)->Ok_0.spec_is_canonical(),
        spec_from_slice(bytes)->Ok_0.spec_len() <= bytes.len(),
        spec_from_slice(bytes)->Ok_0.spec_to_vec().len() <= bytes.len(),
{
    lemma_to_vec_len(spec_from_slice(bytes)->Ok_0);
    let b0 = bytes[0];
    if b0 / 16 == 14 {
        let b1 = bytes[1];
        assert(b1 / 16 < 16);
    }
}

} // verus!
