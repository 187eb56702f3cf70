//! The register file of the CPU: eight byte registers and eight word registers.

use vstd::prelude::*;

verus! {

/// The error returned when a register name cannot be parsed.
#[derive(Clone, Copy, Debug, Default, PartialEq, Eq, Hash, PartialOrd, Ord)]
pub struct ParseRegisterError {
    _private: (),
}

impl ParseRegisterError {
    /// Returns the description of the error.
    pub fn message(&self) -> (r: &'static str)
        ensures
            r@ == "tried to parse invalid register"@,
    {
        "tried to parse invalid register"
    }
}

/// The 8-bit registers, in encoding order.
#[derive(Clone, Copy, Debug, PartialEq, Eq, Hash, PartialOrd, Ord, Structural)]
pub enum ByteRegister {
    H,
    A,
    B,
    C,
    X,
    L,
    M,
    N,
}

/// The 16-bit registers, in encoding order.
#[derive(Clone, Copy, Debug, PartialEq, Eq, Hash, PartialOrd, Ord, Structural)]
pub enum WordRegister {
    HA,
    BC,
    XL,
    MN,
    R4,
    SP,
    FL,
    PC,
}

impl ByteRegister {
    /// The 3-bit number that selects this register in an instruction.
    pub open spec fn spec_code(self) -> u8 {
        match self {
            ByteRegister::H => 0,
            ByteRegister::A => 1,
            ByteRegister::B => 2,
            ByteRegister::C => 3,
            ByteRegister::X => 4,
            ByteRegister::L => 5,
            ByteRegister::M => 6,
            ByteRegister::N => 7,
        }
    }

    /// The register selected by a 3-bit number.
    pub open spec fn spec_from_code(code: u8) -> ByteRegister {
        if code == 0 {
            ByteRegister::H
        } else if code == 1 {
            ByteRegister::A
        } else if code == 2 {
            ByteRegister::B
        } else if code == 3 {
            ByteRegister::C
        } else if code == 4 {
            ByteRegister::X
        } else if code == 5 {
            ByteRegister::L
        } else if code == 6 {
            ByteRegister::M
        } else {
            ByteRegister::N
        }
    }

    /// The name of the register, as written in assembly.
    pub open spec fn spec_name(self) -> Seq<char> {
        match self {
            ByteRegister::H => seq!['H'],
            ByteRegister::A => seq!['A'],
            ByteRegister::B => seq!['B'],
            ByteRegister::C => seq!['C'],
            ByteRegister::X => seq!['X'],
            ByteRegister::L => seq!['L'],
            ByteRegister::M => seq!['M'],
            ByteRegister::N => seq!['N'],
        }
    }

    /// The register with the given name, if there is one.
    pub open spec fn spec_from_name(name: Seq<char>) -> Option<ByteRegister> {
        if name.len() != 1 {
            None
        } else if name[0] == 'H' {
            Some(ByteRegister::H)
        } else if name[0] == 'A' {
            Some(ByteRegister::A)
        } else if name[0] == 'B' {
            Some(ByteRegister::B)
        } else if name[0] == 'C' {
            Some(ByteRegister::C)
        } else if name[0] == 'X' {
            Some(ByteRegister::X)
        } else if name[0] == 'L' {
            Some(ByteRegister::L)
        } else if name[0] == 'M' {
            Some(ByteRegister::M)
        } else if name[0] == 'N' {
            Some(ByteRegister::N)
        } else {
            None
        }
    }

    /// Returns the 3-bit number that selects this register.
    #[verifier::when_used_as_spec(spec_code)]
    pub fn code(self) -> (r: u8)
        ensures
            r == self.spec_code(),
            r < 8,
    {
        match self {
            ByteRegister::H => 0,
            ByteRegister::A => 1,
            ByteRegister::B => 2,
            ByteRegister::C => 3,
            ByteRegister::X => 4,
            ByteRegister::L => 5,
            ByteRegister::M => 6,
            ByteRegister::N => 7,
        }
    }

    /// Returns the register selected by the low three bits of `code`.
    pub fn from_code(code: u8) -> (r: ByteRegister)
        ensures
            r == ByteRegister::spec_from_code(code % 8),
            r.spec_code() == code % 8,
    {
        let c = code % 8;
        if c == 0 {
            ByteRegister::H
        } else if c == 1 {
            ByteRegister::A
        } else if c == 2 {
            ByteRegister::B
        } else if c == 3 {
            ByteRegister::C
        } else if c == 4 {
            ByteRegister::X
        } else if c == 5 {
            ByteRegister::L
        } else if c == 6 {
            ByteRegister::M
        } else {
            ByteRegister::N
        }
    }

    /// Returns the name of the register as written in assembly.
    pub fn name(self) -> (r: &'static str)
        ensures
            r@ == self.spec_name(),
    {
        match self {
            ByteRegister::H => {
                proof {
                    reveal_strlit("H");
                }
                "H"
            },
            ByteRegister::A => {
                proof {
                    reveal_strlit("A");
                }
                "A"
            },
            ByteRegister::B => {
                proof {
                    reveal_strlit("B");
                }
                "B"
            },
            ByteRegister::C => {
                proof {
                    reveal_strlit("C");
                }
                "C"
            },
            ByteRegister::X => {
                proof {
                    reveal_strlit("X");
                }
                "X"
            },
            ByteRegister::L => {
                proof {
                    reveal_strlit("L");
                }
                "L"
            },
            ByteRegister::M => {
                proof {
                    reveal_strlit("M");
                }
                "M"
            },
            ByteRegister::N => {
                proof {
                    reveal_strlit("N");
                }
                "N"
            },
        }
    }
}

impl std::str::FromStr for ByteRegister {
    type Err = ParseRegisterError;

    fn from_str(s: &str) -> (r: Result<Self, Self::Err>)
        ensures
            r == (match ByteRegister::spec_from_name(s@) {
                Some(reg) => Ok(reg),
                None => Err(ParseRegisterError::spec_new()),
            }),
    {
        let r = parse_byte_register(s);
        proof {
            ByteRegister::lemma_from_name(s@);
            if let Some(reg) = ByteRegister::spec_from_name(s@) {
                assert(reg.spec_name() == s@);
            }
        }
        r
    }
}

/// Parses the name of a byte register; the name is upper case, as written in assembly.
pub fn parse_byte_register(s: &str) -> (r: Result<ByteRegister, ParseRegisterError>)
    ensures
        r is Err ==> r == Err::<ByteRegister, ParseRegisterError>(ParseRegisterError::spec_new()),
        r matches Ok(reg) ==> reg.spec_name() == s@,
        r is Err <==> (forall|reg: ByteRegister| reg.spec_name() != s@),
{
    if s.unicode_len() != 1 {
        assert forall|reg: ByteRegister| reg.spec_name() != s@ by {
            assert(reg.spec_name().len() == 1);
        }
        return Err(ParseRegisterError { _private: () });
    }
    let c = s.get_char(0);
    assert(s@ =~= seq![c]);
    let r = if c == 'H' {
        Ok(ByteRegister::H)
    } else if c == 'A' {
        Ok(ByteRegister::A)
    } else if c == 'B' {
        Ok(ByteRegister::B)
    } else if c == 'C' {
        Ok(ByteRegister::C)
    } else if c == 'X' {
        Ok(ByteRegister::X)
    } else if c == 'L' {
        Ok(ByteRegister::L)
    } else if c == 'M' {
        Ok(ByteRegister::M)
    } else if c == 'N' {
        Ok(ByteRegister::N)
    } else {
        assert forall|reg: ByteRegister| reg.spec_name() != s@ by {
            assert(reg.spec_name()[0] != c);
        }
        Err(ParseRegisterError { _private: () })
    };
    proof {
        if let Ok(reg) = r {
            assert(reg.spec_name() == s@);
        }
    }
    r
}


impl WordRegister {
    /// The 3-bit number that selects this register in an instruction.
    pub open spec fn spec_code(self) -> u8 {
        match self {
            WordRegister::HA => 0,
            WordRegister::BC => 1,
            WordRegister::XL => 2,
            WordRegister::MN => 3,
            WordRegister::R4 => 4,
            WordRegister::SP => 5,
            WordRegister::FL => 6,
            WordRegister::PC => 7,
        }
    }

    /// The register selected by a 3-bit number.
    pub open spec fn spec_from_code(code: u8) -> WordRegister {
        if code == 0 {
            WordRegister::HA
        } else if code == 1 {
            WordRegister::BC
        } else if code == 2 {
            WordRegister::XL
        } else if code == 3 {
            WordRegister::MN
        } else if code == 4 {
            WordRegister::R4
        } else if code == 5 {
            WordRegister::SP
        } else if code == 6 {
            WordRegister::FL
        } else {
        WordRegister::PC
        }
    }

    /// The name of the register, as written in assembly.
    pub open spec fn spec_name(self) -> Seq<char> {
        match self {
            WordRegister::HA => seq!['H', 'A'],
            WordRegister::BC => seq!['B', 'C'],
            WordRegister::XL => seq!['X', 'L'],
            WordRegister::MN => seq!['M', 'N'],
            WordRegister::R4 => seq!['R', '4'],
            WordRegister::SP => seq!['S', 'P'],
            WordRegister::FL => seq!['F', 'L'],
            WordRegister::PC => seq!['P', 'C'],
        }
    }

    /// The register with the given name, if there is one.
    pub open spec fn spec_from_name(name: Seq<char>) -> Option<WordRegister> {
        if name.len() != 2 {
            None
        } else if name[0] == 'H' && name[1] == 'A' {
            Some(WordRegister::HA)
        } else if name[0] == 'B' && name[1] == 'C' {
            Some(WordRegister::BC)
        } else if name[0] == 'X' && name[1] == 'L' {
            Some(WordRegister::XL)
        } else if name[0] == 'M' && name[1] == 'N' {
            Some(WordRegister::MN)
        } else if name[0] == 'R' && name[1] == '4' {
            Some(WordRegister::R4)
        } else if name[0] == 'S' && name[1] == 'P' {
            Some(WordRegister::SP)
        } else if name[0] == 'F' && name[1] == 'L' {
            Some(WordRegister::FL)
        } else if name[0] == 'P' && name[1] == 'C' {
            Some(WordRegister::PC)
        } else {
            None
        }
    }

    /// Returns the 3-bit number that selects this register.
    #[verifier::when_used_as_spec(spec_code)]
    pub fn code(self) -> (r: u8)
        ensures
            r == self.spec_code(),
            r < 8,
    {
        match self {
            WordRegister::HA => 0,
            WordRegister::BC => 1,
            WordRegister::XL => 2,
            WordRegister::MN => 3,
            WordRegister::R4 => 4,
            WordRegister::SP => 5,
            WordRegister::FL => 6,
            WordRegister::PC => 7,
        }
    }

    /// Returns the register selected by the low three bits of `code`.
    pub fn from_code(code: u8) -> (r: WordRegister)
        ensures
            r == WordRegister::spec_from_code(code % 8),
            r.spec_code() == code % 8,
    {
        let c = code % 8;
        if c == 0 {
            WordRegister::HA
        } else if c == 1 {
            WordRegister::BC
        } else if c == 2 {
            WordRegister::XL
        } else if c == 3 {
            WordRegister::MN
        } else if c == 4 {
            WordRegister::R4
        } else if c == 5 {
            WordRegister::SP
        } else if c == 6 {
            WordRegister::FL
        } else {
        WordRegister::PC
        }
    }

    /// Returns the name of the register as written in assembly.
    pub fn name(self) -> (r: &'static str)
        ensures
            r@ == self.spec_name(),
    {
        match self {
            WordRegister::HA => {
                proof {
                    reveal_strlit("HA");
                }
                "HA"
            },
            WordRegister::BC => {
                proof {
                    reveal_strlit("BC");
                }
                "BC"
            },
            WordRegister::XL => {
                proof {
                    reveal_strlit("XL");
                }
                "XL"
            },
            WordRegister::MN => {
                proof {
                    reveal_strlit("MN");
                }
                "MN"
            },
            WordRegister::R4 => {
                proof {
                    reveal_strlit("R4");
                }
                "R4"
            },
            WordRegister::SP => {
                proof {
                    reveal_strlit("SP");
                }
                "SP"
            },
            WordRegister::FL => {
                proof {
                    reveal_strlit("FL");
                }
                "FL"
            },
            WordRegister::PC => {
                proof {
                    reveal_strlit("PC");
                }
                "PC"
            },
        }
    }
}

impl std::str::FromStr for WordRegister {
    type Err = ParseRegisterError;

    fn from_str(s: &str) -> (r: Result<Self, Self::Err>)
        ensures
            r == (match WordRegister::spec_from_name(s@) {
                Some(reg) => Ok(reg),
                None => Err(ParseRegisterError::spec_new()),
            }),
    {
        let r = parse_word_register(s);
        proof {
            WordRegister::lemma_from_name(s@);
            if let Some(reg) = WordRegister::spec_from_name(s@) {
                assert(reg.spec_name() == s@);
            }
        }
        r
    }
}

/// Parses the name of a word register; the name is upper case, as written in assembly.
pub fn parse_word_register(s: &str) -> (r: Result<WordRegister, ParseRegisterError>)
    ensures
        r is Err ==> r == Err::<WordRegister, ParseRegisterError>(ParseRegisterError::spec_new()),
        r matches Ok(reg) ==> reg.spec_name() == s@,
        r is Err <==> (forall|reg: WordRegister| reg.spec_name() != s@),
{
    if s.unicode_len() != 2 {
        assert forall|reg: WordRegister| reg.spec_name() != s@ by {
            assert(reg.spec_name().len() == 2);
        }
        return Err(ParseRegisterError { _private: () });
    }
    let c0 = s.get_char(0);
    let c1 = s.get_char(1);
    assert(s@ =~= seq![c0, c1]);
    if c0 == 'H' && c1 == 'A' {
        let r = Ok(WordRegister::HA);
        assert(WordRegister::HA.spec_name() == s@);
        return r;
    }
    if c0 == 'B' && c1 == 'C' {
        let r = Ok(WordRegister::BC);
        assert(WordRegister::BC.spec_name() == s@);
        return r;
    }
    if c0 == 'X' && c1 == 'L' {
        let r = Ok(WordRegister::XL);
        assert(WordRegister::XL.spec_name() == s@);
        return r;
    }
    if c0 == 'M' && c1 == 'N' {
        let r = Ok(WordRegister::MN);
        assert(WordRegister::MN.spec_name() == s@);
        return r;
    }
    if c0 == 'R' && c1 == '4' {
        let r = Ok(WordRegister::R4);
        assert(WordRegister::R4.spec_name() == s@);
        return r;
    }
    if c0 == 'S' && c1 == 'P' {
        let r = Ok(WordRegister::SP);
        assert(WordRegister::SP.spec_name() == s@);
        return r;
    }
    if c0 == 'F' && c1 == 'L' {
        let r = Ok(WordRegister::FL);
        assert(WordRegister::FL.spec_name() == s@);
        return r;
    }
    if c0 == 'P' && c1 == 'C' {
        let r = Ok(WordRegister::PC);
        assert(WordRegister::PC.spec_name() == s@);
        return r;
    }
    let r = Err(ParseRegisterError { _private: () });
    assert forall|reg: WordRegister| reg.spec_name() != s@ by {
        assert(reg.spec_name() =~= seq![reg.spec_name()[0], reg.spec_name()[1]]);
    }
    r
}


impl ByteRegister {
    /// A name names a register exactly when `spec_from_name` finds it.
    pub proof fn lemma_from_name(name: Seq<char>)
        ensures
            forall|reg: ByteRegister| #[trigger] reg.spec_name() == name <==> ByteRegister::spec_from_name(name) == Some(reg),
    {
        if let Some(reg) = ByteRegister::spec_from_name(name) {
            assert(reg.spec_name() =~= name);
        }
    }
}

impl WordRegister {
    /// A name names a register exactly when `spec_from_name` finds it.
    pub proof fn lemma_from_name(name: Seq<char>)
        ensures
            forall|reg: WordRegister| #[trigger] reg.spec_name() == name <==> WordRegister::spec_from_name(name) == Some(reg),
    {
        if let Some(reg) = WordRegister::spec_from_name(name) {
            assert(reg.spec_name() =~= name);
        }
    }
}

impl ParseRegisterError {
    /// The error value; it carries nothing.
    pub closed spec fn spec_new() -> ParseRegisterError {
        ParseRegisterError { _private: () }
    }
}

} // verus!
