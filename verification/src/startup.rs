//! Starting a system: a ROM and initial register values chosen by the user, and the
//! rule that a program may be kept from running out of RAM.

use vstd::prelude::*;
use vstd::string::StringExecFns;

use crate::disassemble::{hex_digits, push_hex_digits};
use crate::opcode::{hi_byte, lo_byte, word_of};
use crate::register::{ByteRegister, WordRegister};
use crate::system::{
    initial_machine, Machine, System, SystemError, MAX_ROM_SIZE, PC_START, SP_START,
};

verus! {

/// Initial values for the registers; a register without one keeps its starting value.
#[derive(Clone, Copy, Debug, PartialEq, Eq)]
pub struct InitialRegisters {
    pub h: Option<u8>,
    pub a: Option<u8>,
    pub b: Option<u8>,
    pub c: Option<u8>,
    pub x: Option<u8>,
    pub l: Option<u8>,
    pub m: Option<u8>,
    pub n: Option<u8>,
    pub ha: Option<u16>,
    pub bc: Option<u16>,
    pub xl: Option<u16>,
    pub mn: Option<u16>,
    pub r4: Option<u16>,
    pub sp: Option<u16>,
    pub fl: Option<u16>,
    pub pc: Option<u16>,
}

impl Default for InitialRegisters {
    fn default() -> (r: Self)
        ensures
            r == (InitialRegisters {
                h: None,
                a: None,
                b: None,
                c: None,
                x: None,
                l: None,
                m: None,
                n: None,
                ha: None,
                bc: None,
                xl: None,
                mn: None,
                r4: None,
                sp: None,
                fl: None,
                pc: None,
            }),
    {
        InitialRegisters {
            h: None,
            a: None,
            b: None,
            c: None,
            x: None,
            l: None,
            m: None,
            n: None,
            ha: None,
            bc: None,
            xl: None,
            mn: None,
            r4: None,
            sp: None,
            fl: None,
            pc: None,
        }
    }
}

/// A byte register and the register pair that holds it were both given initial
/// values.
#[derive(Clone, Copy, Debug, PartialEq, Eq, Hash)]
pub struct CannotInitalizeByteRegisterAndRegisterPair(pub ByteRegister, pub WordRegister);

impl CannotInitalizeByteRegisterAndRegisterPair {
    /// The description of the error.
    pub open spec fn spec_message(self) -> Seq<char> {
        "cannot initialize both the %"@ + self.0.spec_name() + " byte register and the %"@
            + self.1.spec_name() + " register pair at the same time"@
    }

    /// Returns the description of the error.
    pub fn message(&self) -> (r: String)
        ensures
            r@ == self.spec_message(),
    {
        let mut s = String::from_str("cannot initialize both the %");
        s.append(self.0.name());
        s.append(" byte register and the %");
        s.append(self.1.name());
        s.append(" register pair at the same time");
        s
    }
}

/// An error that occurs while starting a system.
#[derive(Clone, Copy, Debug, PartialEq, Eq)]
pub enum StartupError {
    /// The system refused the ROM.
    System(SystemError),
    /// A byte register and its register pair were both given initial values.
    CannotInitalizeByteRegisterAndRegisterPair(CannotInitalizeByteRegisterAndRegisterPair),
}

/// The first byte register, in the order H, A, B, C, X, L, M, N, that was given an
/// initial value together with the register pair that holds it.
pub open spec fn register_conflict(regs: InitialRegisters) -> Option<
    CannotInitalizeByteRegisterAndRegisterPair,
> {
    if regs.ha is Some && regs.h is Some {
        Some(CannotInitalizeByteRegisterAndRegisterPair(ByteRegister::H, WordRegister::HA))
    } else if regs.ha is Some && regs.a is Some {
        Some(CannotInitalizeByteRegisterAndRegisterPair(ByteRegister::A, WordRegister::HA))
    } else if regs.bc is Some && regs.b is Some {
        Some(CannotInitalizeByteRegisterAndRegisterPair(ByteRegister::B, WordRegister::BC))
    } else if regs.bc is Some && regs.c is Some {
        Some(CannotInitalizeByteRegisterAndRegisterPair(ByteRegister::C, WordRegister::BC))
    } else if regs.xl is Some && regs.x is Some {
        Some(CannotInitalizeByteRegisterAndRegisterPair(ByteRegister::X, WordRegister::XL))
    } else if regs.xl is Some && regs.l is Some {
        Some(CannotInitalizeByteRegisterAndRegisterPair(ByteRegister::L, WordRegister::XL))
    } else if regs.mn is Some && regs.m is Some {
        Some(CannotInitalizeByteRegisterAndRegisterPair(ByteRegister::M, WordRegister::MN))
    } else if regs.mn is Some && regs.n is Some {
        Some(CannotInitalizeByteRegisterAndRegisterPair(ByteRegister::N, WordRegister::MN))
    } else {
        None
    }
}

/// The state with a byte register set where a value is given.
pub open spec fn with_byte(m: Machine, r: ByteRegister, v: Option<u8>) -> Machine {
    match v {
        Some(v) => m.with_regb(r, v),
        None => m,
    }
}

/// The state with a word register set where a value is given.
pub open spec fn with_word(m: Machine, r: WordRegister, v: Option<u16>) -> Machine {
    match v {
        Some(v) => m.with_regw(r, v),
        None => m,
    }
}

/// The state with a register pair and its two byte registers set where values are
/// given; the pair is used when it has a value.
pub open spec fn with_pair(
    m: Machine,
    pair: WordRegister,
    hi: ByteRegister,
    lo: ByteRegister,
    pair_value: Option<u16>,
    hi_value: Option<u8>,
    lo_value: Option<u8>,
) -> Machine {
    match pair_value {
        Some(v) => m.with_regw(pair, v),
        None => with_byte(with_byte(m, hi, hi_value), lo, lo_value),
    }
}

/// The state with every given initial value set.
pub open spec fn with_initial_registers(m: Machine, regs: InitialRegisters) -> Machine {
    let m1 = with_pair(m, WordRegister::HA, ByteRegister::H, ByteRegister::A, regs.ha, regs.h, regs.a);
    let m2 = with_pair(m1, WordRegister::BC, ByteRegister::B, ByteRegister::C, regs.bc, regs.b, regs.c);
    let m3 = with_pair(m2, WordRegister::XL, ByteRegister::X, ByteRegister::L, regs.xl, regs.x, regs.l);
    let m4 = with_pair(m3, WordRegister::MN, ByteRegister::M, ByteRegister::N, regs.mn, regs.m, regs.n);
    let m5 = with_word(m4, WordRegister::R4, regs.r4);
    let m6 = with_word(m5, WordRegister::SP, regs.sp);
    let m7 = with_word(m6, WordRegister::FL, regs.fl);
    with_word(m7, WordRegister::PC, regs.pc)
}

/// Sets a register pair, or its byte registers, where values are given.
fn set_pair(
    system: &mut System,
    pair: WordRegister,
    hi: ByteRegister,
    lo: ByteRegister,
    pair_value: Option<u16>,
    hi_value: Option<u8>,
    lo_value: Option<u8>,
)
    ensures
        final(system)@ == with_pair(old(system)@, pair, hi, lo, pair_value, hi_value, lo_value),
{
    match pair_value {
        Some(v) => system.set_regw(pair, v),
        None => {
            if let Some(v) = hi_value {
                system.set_regb(hi, v);
            }
            if let Some(v) = lo_value {
                system.set_regb(lo, v);
            }
        },
    }
}

/// Sets a word register where a value is given.
fn set_word(system: &mut System, r: WordRegister, v: Option<u16>)
    ensures
        final(system)@ == with_word(old(system)@, r, v),
{
    if let Some(v) = v {
        system.set_regw(r, v);
    }
}

/// Finds the first byte register that was given an initial value together with its
/// register pair.
fn find_register_conflict(regs: &InitialRegisters) -> (r: Option<
    CannotInitalizeByteRegisterAndRegisterPair,
>)
    ensures
        r == register_conflict(*regs),
{
    if regs.ha.is_some() {
        if regs.h.is_some() {
            return Some(CannotInitalizeByteRegisterAndRegisterPair(ByteRegister::H, WordRegister::HA));
        }
        if regs.a.is_some() {
            return Some(CannotInitalizeByteRegisterAndRegisterPair(ByteRegister::A, WordRegister::HA));
        }
    }
    if regs.bc.is_some() {
        if regs.b.is_some() {
            return Some(CannotInitalizeByteRegisterAndRegisterPair(ByteRegister::B, WordRegister::BC));
        }
        if regs.c.is_some() {
            return Some(CannotInitalizeByteRegisterAndRegisterPair(ByteRegister::C, WordRegister::BC));
        }
    }
    if regs.xl.is_some() {
        if regs.x.is_some() {
            return Some(CannotInitalizeByteRegisterAndRegisterPair(ByteRegister::X, WordRegister::XL));
        }
        if regs.l.is_some() {
            return Some(CannotInitalizeByteRegisterAndRegisterPair(ByteRegister::L, WordRegister::XL));
        }
    }
    if regs.mn.is_some() {
        if regs.m.is_some() {
            return Some(CannotInitalizeByteRegisterAndRegisterPair(ByteRegister::M, WordRegister::MN));
        }
        if regs.n.is_some() {
            return Some(CannotInitalizeByteRegisterAndRegisterPair(ByteRegister::N, WordRegister::MN));
        }
    }
    None
}

/// Creates a system with the given ROM and sets the initial register values.
///
/// # Errors
///
/// Returns [`StartupError::System`] with [`SystemError::RomTooLarge`] if the ROM is
/// larger than 128 KiB (`MAX_ROM_SIZE` bytes), and otherwise
/// [`StartupError::CannotInitalizeByteRegisterAndRegisterPair`] for the first byte
/// register that was given a value together with its register pair.
pub fn system_from_args(rom: Vec<u8>, regs: &InitialRegisters) -> (r: Result<System, StartupError>)
    ensures
        rom@.len() > MAX_ROM_SIZE ==> r == Err::<System, StartupError>(
            StartupError::System(SystemError::RomTooLarge),
        ),
        rom@.len() <= MAX_ROM_SIZE && register_conflict(*regs) is Some ==> r == Err::<
            System,
            StartupError,
        >(
            StartupError::CannotInitalizeByteRegisterAndRegisterPair(
                register_conflict(*regs)->Some_0,
            ),
        ),
        rom@.len() <= MAX_ROM_SIZE && register_conflict(*regs) is None ==> (r matches Ok(s)
            && s@ == with_initial_registers(initial_machine(rom@), *regs)),
{
    let mut system = match System::new(rom) {
        Ok(s) => s,
        Err(e) => return Err(StartupError::System(e)),
    };
    if let Some(conflict) = find_register_conflict(regs) {
        return Err(StartupError::CannotInitalizeByteRegisterAndRegisterPair(conflict));
    }
    set_pair(&mut system, WordRegister::HA, ByteRegister::H, ByteRegister::A, regs.ha, regs.h, regs.a);
    set_pair(&mut system, WordRegister::BC, ByteRegister::B, ByteRegister::C, regs.bc, regs.b, regs.c);
    set_pair(&mut system, WordRegister::XL, ByteRegister::X, ByteRegister::L, regs.xl, regs.x, regs.l);
    set_pair(&mut system, WordRegister::MN, ByteRegister::M, ByteRegister::N, regs.mn, regs.m, regs.n);
    set_word(&mut system, WordRegister::R4, regs.r4);
    set_word(&mut system, WordRegister::SP, regs.sp);
    set_word(&mut system, WordRegister::FL, regs.fl);
    set_word(&mut system, WordRegister::PC, regs.pc);
    Ok(system)
}

/// An attempt to execute an instruction from RAM while that is forbidden; the address
/// of the instruction.
#[derive(Clone, Copy, Debug, Default, PartialEq, Eq, Hash, PartialOrd, Ord)]
pub struct RamExecution(pub u16);

impl RamExecution {
    /// The description of the error.
    pub open spec fn spec_message(self) -> Seq<char> {
        "attempt to execute instruction at address 0x"@ + hex_digits(self.0 as nat) + " in RAM"@
    }

    /// Returns the description of the error.
    pub fn message(&self) -> (r: String)
        ensures
            r@ == self.spec_message(),
    {
        let mut s = String::from_str("attempt to execute instruction at address 0x");
        push_hex_digits(&mut s, self.0);
        s.append(" in RAM");
        s
    }
}

/// Checks whether the instruction at `pc` may run: when execution from RAM is
/// forbidden, an address below `PC_START` is refused.
///
/// # Errors
///
/// Returns [`RamExecution`] with the address when `no_ram_pc` is set and `pc` is in RAM.
pub fn check_ram_execution(no_ram_pc: bool, pc: u16) -> (r: Result<(), RamExecution>)
    ensures
        r == (if no_ram_pc && pc < PC_START {
            Err(RamExecution(pc))
        } else {
            Ok(())
        }),
{
    if no_ram_pc && pc < PC_START {
        Err(RamExecution(pc))
    } else {
        Ok(())
    }
}


/// Every register given an initial value holds it after startup, a pair as its two
/// bytes; SP and PC given none keep their starting values.
pub proof fn lemma_initial_values_hold(rom: Seq<u8>, regs: InitialRegisters)
    requires
        register_conflict(regs) is None,
    ensures
        ({
            let m = with_initial_registers(initial_machine(rom), regs);
            &&& regs.h matches Some(v) ==> m.regb(ByteRegister::H) == v
            &&& regs.a matches Some(v) ==> m.regb(ByteRegister::A) == v
            &&& regs.b matches Some(v) ==> m.regb(ByteRegister::B) == v
            &&& regs.c matches Some(v) ==> m.regb(ByteRegister::C) == v
            &&& regs.x matches Some(v) ==> m.regb(ByteRegister::X) == v
            &&& regs.l matches Some(v) ==> m.regb(ByteRegister::L) == v
            &&& regs.m matches Some(v) ==> m.regb(ByteRegister::M) == v
            &&& regs.n matches Some(v) ==> m.regb(ByteRegister::N) == v
            &&& regs.ha matches Some(v) ==> m.regw(WordRegister::HA) == v
            &&& regs.bc matches Some(v) ==> m.regw(WordRegister::BC) == v
            &&& regs.xl matches Some(v) ==> m.regw(WordRegister::XL) == v
            &&& regs.mn matches Some(v) ==> m.regw(WordRegister::MN) == v
            &&& regs.r4 matches Some(v) ==> m.regw(WordRegister::R4) == v
            &&& regs.sp matches Some(v) ==> m.regw(WordRegister::SP) == v
            &&& regs.fl matches Some(v) ==> m.regw(WordRegister::FL) == v
            &&& regs.pc matches Some(v) ==> m.regw(WordRegister::PC) == v
            &&& regs.sp is None ==> m.sp == SP_START
            &&& regs.pc is None ==> m.pc == PC_START
            &&& m.ram == initial_machine(rom).ram
            &&& m.rom == rom
        }),
{
    assert forall|v: u16| word_of(hi_byte(v), lo_byte(v)) == v by {}
}

} // verus!
