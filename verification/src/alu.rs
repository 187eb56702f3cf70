//! The arithmetic-logic unit: what each operation computes on a byte or a word, and
//! how the carry and overflow flags come out.
//!
//! Values are unsigned numbers below `2^w`, where `w` is the width in bits (8 or 16);
//! a value `v` stands for the signed number `signed(v, w)` in two's complement.

use vstd::arithmetic::div_mod::{
    lemma_fundamental_div_mod, lemma_fundamental_div_mod_converse, lemma_mod_pos_bound,
};
use vstd::arithmetic::power2::{
    lemma2_to64, lemma_pow2_adds, lemma_pow2_pos, lemma_pow2_strictly_increases, lemma_pow2_unfold,
    pow2,
};
use vstd::prelude::*;

use crate::opcode::{AluBinaryOperation, AluUnaryOperation};

verus! {

/// The widths the ALU works on.
pub open spec fn valid_width(w: nat) -> bool {
    w == 8 || w == 16
}

/// The signed number that a `w`-bit value stands for.
pub open spec fn signed(v: int, w: nat) -> int {
    if v >= pow2((w - 1) as nat) {
        v - pow2(w)
    } else {
        v
    }
}

/// Whether a signed number can be held in `w` bits.
pub open spec fn fits_signed(v: int, w: nat) -> bool {
    -pow2((w - 1) as nat) <= v < pow2((w - 1) as nat)
}

/// Whether bit `k` of `v` is set.
pub open spec fn bit_set(v: int, k: nat) -> bool {
    (v / pow2(k) as int) % 2 == 1
}

/// The number of set bits of `v`.
pub open spec fn popcount(v: nat) -> nat
    decreases v,
{
    if v == 0 {
        0
    } else {
        (v % 2) + popcount(v / 2)
    }
}

/// What a binary operation computes on `w`-bit operands, and the carry and overflow
/// flags it gives: `(value, carry, overflow)`. `carry_in` is the carry flag before
/// the operation. Shifts and rotates take the shift count `s` modulo the width; a
/// left shift keeps the low `w - s` bits, moved up by `s`.
pub open spec fn binary_outcome(
    op: AluBinaryOperation,
    lhs: u16,
    rhs: u16,
    carry_in: bool,
    w: nat,
) -> (int, bool, bool) {
    let m = pow2(w) as int;
    let c: int = if carry_in {
        1
    } else {
        0
    };
    let l = lhs as int;
    let r = rhs as int;
    let sl = signed(l, w);
    let sr = signed(r, w);
    let s = (r % w as int) as nat;
    let ps = pow2(s) as int;
    let pr = pow2((w - s) as nat) as int;
    match op {
        AluBinaryOperation::Add => ((l + r) % m, l + r >= m, !fits_signed(sl + sr, w)),
        AluBinaryOperation::Sub => ((l - r) % m, l < r, !fits_signed(sl - sr, w)),
        AluBinaryOperation::Adc => ((l + r + c) % m, l + r + c >= m, !fits_signed(sl + sr + c, w)),
        AluBinaryOperation::Sbb => ((l - r - c) % m, l - r - c < 0, !fits_signed(sl - sr - c, w)),
        AluBinaryOperation::And => ((lhs & rhs) as int, false, false),
        AluBinaryOperation::Xor => ((lhs ^ rhs) as int, false, false),
        AluBinaryOperation::Bic => ((lhs & !rhs) as int, false, false),
        AluBinaryOperation::Or => ((lhs | rhs) as int, false, false),
        AluBinaryOperation::Shl => ((l % pr) * ps, s != 0 && bit_set(l, (w - s) as nat), false),
        AluBinaryOperation::Shr => (l / ps, s != 0 && bit_set(l, (s - 1) as nat), false),
        AluBinaryOperation::Sar => ((sl / ps) % m, s != 0 && bit_set(l, (s - 1) as nat), false),
        AluBinaryOperation::Rol => ((l % pr) * ps + l / pr, s != 0 && bit_set(l, (w - s) as nat), false),
        AluBinaryOperation::Ror => (l / ps + (l % ps) * pr, s != 0 && bit_set(l, (s - 1) as nat), false),
    }
}

/// What a unary operation computes on a `w`-bit operand, and the carry and overflow
/// flags it gives: `(value, carry, overflow)`. For `ZERO` the value is the operand,
/// which the zero and sign flags describe; the register itself becomes 0.
pub open spec fn unary_outcome(op: AluUnaryOperation, v: u16, carry_in: bool, w: nat) -> (
    int,
    bool,
    bool,
) {
    let m = pow2(w) as int;
    let half = pow2((w - 1) as nat) as int;
    let c: int = if carry_in {
        1
    } else {
        0
    };
    let x = v as int;
    let sv = signed(x, w);
    let p = pow2(w / 2) as int;
    match op {
        AluUnaryOperation::Neg => ((m - x) % m, x != 0, x == half),
        AluUnaryOperation::Not => (m - 1 - x, false, false),
        AluUnaryOperation::Inc => ((x + 1) % m, carry_in, x == half - 1),
        AluUnaryOperation::Dec => ((x - 1) % m, carry_in, x == half),
        AluUnaryOperation::Abs => ((if sv < 0 {
            -sv
        } else {
            sv
        }) % m, sv < 0, x == half),
        AluUnaryOperation::Sgxt => (if w == 8 {
            x
        } else {
            signed(x % 256, 8) % m
        }, false, false),
        AluUnaryOperation::Swap => (x / p + (x % p) * p, false, false),
        AluUnaryOperation::Popcnt => (popcount(v as nat) as int, false, false),
        AluUnaryOperation::Rcl => ((x % half) * 2 + c, bit_set(x, (w - 1) as nat), false),
        AluUnaryOperation::Rcr => (x / 2 + c * half, bit_set(x, 0), false),
        AluUnaryOperation::Zero => (x, x == m - 1, x == half - 1),
    }
}

/// The flags register after an ALU operation: the four low bits become ZF, CF, SF and
/// OF (bit 0 to bit 3) for `value`; the other bits are kept.
pub open spec fn alu_flags(fl: u16, value: int, carry: bool, overflow: bool, w: nat) -> u16 {
    (fl - fl % 16 + (if value == 0 {
        1int
    } else {
        0
    }) + (if carry {
        2int
    } else {
        0
    }) + (if value >= pow2((w - 1) as nat) {
        4int
    } else {
        0
    }) + (if overflow {
        8int
    } else {
        0
    })) as u16
}

/// The four low bits of the flags register after an ALU operation are ZF (the value
/// is zero), CF, SF (the top bit of the value) and OF, from bit 0 up; the bits above
/// them are kept.
pub proof fn lemma_alu_flags_bits(fl: u16, value: int, carry: bool, overflow: bool, w: nat)
    ensures
        alu_flags(fl, value, carry, overflow, w) % 2 == (if value == 0 {
            1int
        } else {
            0
        }),
        (alu_flags(fl, value, carry, overflow, w) / 2) % 2 == (if carry {
            1int
        } else {
            0
        }),
        (alu_flags(fl, value, carry, overflow, w) / 4) % 2 == (if value >= pow2((w - 1) as nat) {
            1int
        } else {
            0
        }),
        (alu_flags(fl, value, carry, overflow, w) / 8) % 2 == (if overflow {
            1int
        } else {
            0
        }),
        alu_flags(fl, value, carry, overflow, w) / 16 == fl / 16,
{
    lemma_fundamental_div_mod(fl as int, 16);
}

/// Returns `2^k`.
pub fn pow2_exec(k: u32) -> (r: u32)
    requires
        k < 32,
    ensures
        r == pow2(k as nat),
{
    let mut r: u32 = 1;
    let mut i: u32 = 0;
    proof {
        lemma2_to64();
    }
    while i < k
        invariant
            i <= k < 32,
            r == pow2(i as nat),
        decreases k - i,
    {
        proof {
            lemma_pow2_unfold((i + 1) as nat);
            lemma_pow2_strictly_increases((i + 1) as nat, 32);
            lemma2_to64();
        }
        r = r * 2;
        i = i + 1;
    }
    r
}

/// Returns whether bit `k` of `v` is set.
fn bit_set_exec(v: u32, k: u32) -> (r: bool)
    requires
        k < 32,
    ensures
        r == bit_set(v as int, k as nat),
{
    let p = pow2_exec(k);
    proof {
        lemma_pow2_pos(k as nat);
    }
    (v / p) % 2 == 1
}

/// Whether a signed number fits in `w` bits, where `half` is `2^(w-1)`.
fn fits_signed_exec(v: i32, half: u32, w: u32) -> (r: bool)
    requires
        half == pow2((w - 1) as nat),
        half <= 0x8000,
        w >= 1,
    ensures
        r == fits_signed(v as int, w as nat),
{
    -(half as i32) <= v && v < half as i32
}

/// The signed number a `w`-bit value stands for, where `half` is `2^(w-1)` and `m` is `2^w`.
fn signed_exec(v: u32, half: u32, m: u32, w: u32) -> (r: i32)
    requires
        half == pow2((w - 1) as nat),
        m == pow2(w as nat),
        m <= 0x10000,
        v < m,
        w >= 1,
    ensures
        r as int == signed(v as int, w as nat),
{
    if v >= half {
        v as i32 - m as i32
    } else {
        v as i32
    }
}

/// Facts about the powers of two for a width `w` and a shift count `s < w`.
proof fn lemma_width_powers(w: nat, s: nat)
    requires
        valid_width(w),
        s < w,
    ensures
        pow2(w) == pow2(s) * pow2((w - s) as nat),
        pow2(w) == pow2((w - s) as nat) * pow2(s),
        pow2(s) <= pow2(w),
        pow2((w - s) as nat) <= pow2(w),
        pow2(w) == 2 * pow2((w - 1) as nat),
        pow2(w) <= 0x10000,
        pow2(s) >= 1,
        pow2((w - s) as nat) >= 1,
        pow2(w) == pow2(w / 2) * pow2(w / 2),
        w == 8 ==> pow2(w) == 256 && pow2((w - 1) as nat) == 128,
        w == 16 ==> pow2(w) == 0x10000 && pow2((w - 1) as nat) == 0x8000,
{
    lemma2_to64();
    lemma_pow2_adds(s, (w - s) as nat);
    lemma_pow2_adds(w / 2, w / 2);
    lemma_pow2_unfold(w);
    lemma_pow2_pos(s);
    lemma_pow2_pos((w - s) as nat);
    let ps = pow2(s);
    let pr = pow2((w - s) as nat);
    assert(ps <= ps * pr && pr <= ps * pr && ps * pr == pr * ps) by (nonlinear_arith)
        requires
            ps >= 1,
            pr >= 1,
    ;
}

/// `(a + k * m) % m == a % m`.
proof fn lemma_mod_shift(a: int, k: int, m: int)
    requires
        m > 0,
    ensures
        (a + k * m) % m == a % m,
{
    lemma_fundamental_div_mod(a, m);
    assert(a + k * m == (a / m + k) * m + a % m) by (nonlinear_arith)
        requires
            a == m * (a / m) + a % m,
    ;
    lemma_fundamental_div_mod_converse(a + k * m, m, a / m + k, a % m);
}

/// The low `w - s` bits moved up by `s`, plus `extra`, stays below `2^w` when
/// `extra < 2^s`.
proof fn lemma_shifted_bound(l: int, ps: int, pr: int, extra: int)
    requires
        ps >= 1,
        pr >= 1,
        0 <= l,
        0 <= extra < ps,
    ensures
        0 <= (l % pr) * ps + extra < ps * pr,
{
    assert(0 <= l % pr < pr);
    assert((l % pr) * ps <= (pr - 1) * ps) by (nonlinear_arith)
        requires
            0 <= l % pr <= pr - 1,
            ps >= 1,
    ;
    assert((pr - 1) * ps + ps == ps * pr) by (nonlinear_arith);
    assert(0 <= (l % pr) * ps) by (nonlinear_arith)
        requires
            0 <= l % pr,
            ps >= 1,
    ;
}

/// Bits shifted right out of a `w`-bit value stay below `2^(w-s)`.
proof fn lemma_quotient_bound(l: int, ps: int, pr: int)
    requires
        ps >= 1,
        pr >= 1,
        0 <= l < ps * pr,
    ensures
        0 <= l / ps < pr,
        0 <= l % ps < ps,
{
    lemma_fundamental_div_mod(l, ps);
    assert(0 <= l / ps < pr) by (nonlinear_arith)
        requires
            l == ps * (l / ps) + l % ps,
            0 <= l % ps < ps,
            0 <= l < ps * pr,
            ps >= 1,
    ;
}

/// An arithmetic shift right of a negative value: the shifted-out bits are replaced by
/// copies of the sign bit.
proof fn lemma_sar_negative(l: int, ps: int, pr: int)
    requires
        ps >= 1,
        pr >= 1,
        0 <= l < ps * pr,
    ensures
        ((l - ps * pr) / ps) % (ps * pr) == l / ps + ps * pr - pr,
{
    let m = ps * pr;
    lemma_fundamental_div_mod(l, ps);
    assert(l - m == (l / ps - pr) * ps + l % ps) by (nonlinear_arith)
        requires
            l == ps * (l / ps) + l % ps,
            m == ps * pr,
    ;
    lemma_fundamental_div_mod_converse(l - m, ps, l / ps - pr, l % ps);
    lemma_quotient_bound(l, ps, pr);
    assert(pr <= m) by (nonlinear_arith)
        requires
            m == ps * pr,
            ps >= 1,
            pr >= 1,
    ;
    lemma_fundamental_div_mod_converse(l / ps - pr, m, -1, l / ps - pr + m);
}

fn outcome_add(lhs: u16, rhs: u16, carry_in: bool, w: u32) -> (r: (u16, bool, bool))
    requires
        valid_width(w as nat),
        lhs < pow2(w as nat),
        rhs < pow2(w as nat),
    ensures
        r.0 as int == binary_outcome(AluBinaryOperation::Add, lhs, rhs, carry_in, w as nat).0,
        r.1 == binary_outcome(AluBinaryOperation::Add, lhs, rhs, carry_in, w as nat).1,
        r.2 == binary_outcome(AluBinaryOperation::Add, lhs, rhs, carry_in, w as nat).2,
        r.0 < pow2(w as nat),
{
    proof {
        lemma_width_powers(w as nat, 0);
    }
    let m = pow2_exec(w);
    let half = pow2_exec(w - 1);
    let l = lhs as u32;
    let r = rhs as u32;
    let sl = signed_exec(l, half, m, w);
    let sr = signed_exec(r, half, m, w);
    let v = (l + r) % m;
    (v as u16, l + r >= m, !fits_signed_exec(sl + sr, half, w))
}

fn outcome_sub(lhs: u16, rhs: u16, carry_in: bool, w: u32) -> (r: (u16, bool, bool))
    requires
        valid_width(w as nat),
        lhs < pow2(w as nat),
        rhs < pow2(w as nat),
    ensures
        r.0 as int == binary_outcome(AluBinaryOperation::Sub, lhs, rhs, carry_in, w as nat).0,
        r.1 == binary_outcome(AluBinaryOperation::Sub, lhs, rhs, carry_in, w as nat).1,
        r.2 == binary_outcome(AluBinaryOperation::Sub, lhs, rhs, carry_in, w as nat).2,
        r.0 < pow2(w as nat),
{
    proof {
        lemma_width_powers(w as nat, 0);
    }
    let m = pow2_exec(w);
    let half = pow2_exec(w - 1);
    let l = lhs as u32;
    let r = rhs as u32;
    let sl = signed_exec(l, half, m, w);
    let sr = signed_exec(r, half, m, w);
    proof {
        lemma_mod_shift(l - r, 1, m as int);
    }
    let v = (l + m - r) % m;
    (v as u16, l < r, !fits_signed_exec(sl - sr, half, w))
}

fn outcome_adc(lhs: u16, rhs: u16, carry_in: bool, w: u32) -> (r: (u16, bool, bool))
    requires
        valid_width(w as nat),
        lhs < pow2(w as nat),
        rhs < pow2(w as nat),
    ensures
        r.0 as int == binary_outcome(AluBinaryOperation::Adc, lhs, rhs, carry_in, w as nat).0,
        r.1 == binary_outcome(AluBinaryOperation::Adc, lhs, rhs, carry_in, w as nat).1,
        r.2 == binary_outcome(AluBinaryOperation::Adc, lhs, rhs, carry_in, w as nat).2,
        r.0 < pow2(w as nat),
{
    proof {
        lemma_width_powers(w as nat, 0);
    }
    let m = pow2_exec(w);
    let half = pow2_exec(w - 1);
    let l = lhs as u32;
    let r = rhs as u32;
    let c: u32 = if carry_in {
        1
    } else {
        0
    };
    let sl = signed_exec(l, half, m, w);
    let sr = signed_exec(r, half, m, w);
    let v = (l + r + c) % m;
    (v as u16, l + r + c >= m, !fits_signed_exec(sl + sr + c as i32, half, w))
}

fn outcome_sbb(lhs: u16, rhs: u16, carry_in: bool, w: u32) -> (r: (u16, bool, bool))
    requires
        valid_width(w as nat),
        lhs < pow2(w as nat),
        rhs < pow2(w as nat),
    ensures
        r.0 as int == binary_outcome(AluBinaryOperation::Sbb, lhs, rhs, carry_in, w as nat).0,
        r.1 == binary_outcome(AluBinaryOperation::Sbb, lhs, rhs, carry_in, w as nat).1,
        r.2 == binary_outcome(AluBinaryOperation::Sbb, lhs, rhs, carry_in, w as nat).2,
        r.0 < pow2(w as nat),
{
    proof {
        lemma_width_powers(w as nat, 0);
    }
    let m = pow2_exec(w);
    let half = pow2_exec(w - 1);
    let l = lhs as u32;
    let r = rhs as u32;
    let c: u32 = if carry_in {
        1
    } else {
        0
    };
    let sl = signed_exec(l, half, m, w);
    let sr = signed_exec(r, half, m, w);
    proof {
        lemma_mod_shift(l - r - c, 1, m as int);
    }
    let v = (l + m - r - c) % m;
    (v as u16, l < r + c, !fits_signed_exec(sl - sr - c as i32, half, w))
}

fn outcome_shl(lhs: u16, rhs: u16, carry_in: bool, w: u32) -> (r: (u16, bool, bool))
    requires
        valid_width(w as nat),
        lhs < pow2(w as nat),
        rhs < pow2(w as nat),
    ensures
        r.0 as int == binary_outcome(AluBinaryOperation::Shl, lhs, rhs, carry_in, w as nat).0,
        r.1 == binary_outcome(AluBinaryOperation::Shl, lhs, rhs, carry_in, w as nat).1,
        r.2 == binary_outcome(AluBinaryOperation::Shl, lhs, rhs, carry_in, w as nat).2,
        r.0 < pow2(w as nat),
{
    let l = lhs as u32;
    let s = rhs as u32 % w;
    proof {
        lemma_width_powers(w as nat, s as nat);
    }
    let ps = pow2_exec(s);
    let pr = pow2_exec(w - s);
    proof {
        lemma_shifted_bound(l as int, ps as int, pr as int, 0);
    }
    let v = (l % pr) * ps;
    (v as u16, s != 0 && bit_set_exec(l, w - s), false)
}

fn outcome_shr(lhs: u16, rhs: u16, carry_in: bool, w: u32) -> (r: (u16, bool, bool))
    requires
        valid_width(w as nat),
        lhs < pow2(w as nat),
        rhs < pow2(w as nat),
    ensures
        r.0 as int == binary_outcome(AluBinaryOperation::Shr, lhs, rhs, carry_in, w as nat).0,
        r.1 == binary_outcome(AluBinaryOperation::Shr, lhs, rhs, carry_in, w as nat).1,
        r.2 == binary_outcome(AluBinaryOperation::Shr, lhs, rhs, carry_in, w as nat).2,
        r.0 < pow2(w as nat),
{
    let l = lhs as u32;
    let s = rhs as u32 % w;
    proof {
        lemma_width_powers(w as nat, s as nat);
    }
    let ps = pow2_exec(s);
    let pr = pow2_exec(w - s);
    proof {
        lemma_quotient_bound(l as int, ps as int, pr as int);
    }
    let v = l / ps;
    (v as u16, s != 0 && bit_set_exec(l, s - 1), false)
}

fn outcome_sar(lhs: u16, rhs: u16, carry_in: bool, w: u32) -> (r: (u16, bool, bool))
    requires
        valid_width(w as nat),
        lhs < pow2(w as nat),
        rhs < pow2(w as nat),
    ensures
        r.0 as int == binary_outcome(AluBinaryOperation::Sar, lhs, rhs, carry_in, w as nat).0,
        r.1 == binary_outcome(AluBinaryOperation::Sar, lhs, rhs, carry_in, w as nat).1,
        r.2 == binary_outcome(AluBinaryOperation::Sar, lhs, rhs, carry_in, w as nat).2,
        r.0 < pow2(w as nat),
{
    let m = pow2_exec(w);
    let half = pow2_exec(w - 1);
    let l = lhs as u32;
    let s = rhs as u32 % w;
    proof {
        lemma_width_powers(w as nat, s as nat);
    }
    let ps = pow2_exec(s);
    let pr = pow2_exec(w - s);
    proof {
        lemma_quotient_bound(l as int, ps as int, pr as int);
        if l >= half {
            lemma_sar_negative(l as int, ps as int, pr as int);
        } else {
            lemma_fundamental_div_mod_converse(l as int / ps as int, m as int, 0, l as int / ps as int);
        }
    }
    let v = if l >= half {
        l / ps + (m - pr)
    } else {
        l / ps
    };
    (v as u16, s != 0 && bit_set_exec(l, s - 1), false)
}

fn outcome_rol(lhs: u16, rhs: u16, carry_in: bool, w: u32) -> (r: (u16, bool, bool))
    requires
        valid_width(w as nat),
        lhs < pow2(w as nat),
        rhs < pow2(w as nat),
    ensures
        r.0 as int == binary_outcome(AluBinaryOperation::Rol, lhs, rhs, carry_in, w as nat).0,
        r.1 == binary_outcome(AluBinaryOperation::Rol, lhs, rhs, carry_in, w as nat).1,
        r.2 == binary_outcome(AluBinaryOperation::Rol, lhs, rhs, carry_in, w as nat).2,
        r.0 < pow2(w as nat),
{
    let l = lhs as u32;
    let s = rhs as u32 % w;
    proof {
        lemma_width_powers(w as nat, s as nat);
    }
    let ps = pow2_exec(s);
    let pr = pow2_exec(w - s);
    proof {
        lemma_quotient_bound(l as int, pr as int, ps as int);
        lemma_shifted_bound(l as int, ps as int, pr as int, l as int / pr as int);
    }
    let v = (l % pr) * ps + l / pr;
    (v as u16, s != 0 && bit_set_exec(l, w - s), false)
}

fn outcome_ror(lhs: u16, rhs: u16, carry_in: bool, w: u32) -> (r: (u16, bool, bool))
    requires
        valid_width(w as nat),
        lhs < pow2(w as nat),
        rhs < pow2(w as nat),
    ensures
        r.0 as int == binary_outcome(AluBinaryOperation::Ror, lhs, rhs, carry_in, w as nat).0,
        r.1 == binary_outcome(AluBinaryOperation::Ror, lhs, rhs, carry_in, w as nat).1,
        r.2 == binary_outcome(AluBinaryOperation::Ror, lhs, rhs, carry_in, w as nat).2,
        r.0 < pow2(w as nat),
{
    let l = lhs as u32;
    let s = rhs as u32 % w;
    proof {
        lemma_width_powers(w as nat, s as nat);
    }
    let ps = pow2_exec(s);
    let pr = pow2_exec(w - s);
    proof {
        lemma_quotient_bound(l as int, ps as int, pr as int);
        lemma_shifted_bound(l as int, pr as int, ps as int, l as int / ps as int);
    }
    let v = l / ps + (l % ps) * pr;
    (v as u16, s != 0 && bit_set_exec(l, s - 1), false)
}

/// What a binary operation computes on `w`-bit operands, with its carry and overflow
/// flags.
pub fn binary_outcome_exec(op: AluBinaryOperation, lhs: u16, rhs: u16, carry_in: bool, w: u32) -> (r: (
    u16,
    bool,
    bool,
))
    requires
        valid_width(w as nat),
        lhs < pow2(w as nat),
        rhs < pow2(w as nat),
    ensures
        r.0 as int == binary_outcome(op, lhs, rhs, carry_in, w as nat).0,
        r.1 == binary_outcome(op, lhs, rhs, carry_in, w as nat).1,
        r.2 == binary_outcome(op, lhs, rhs, carry_in, w as nat).2,
        r.0 < pow2(w as nat),
{
    match op {
        AluBinaryOperation::Add => outcome_add(lhs, rhs, carry_in, w),
        AluBinaryOperation::Sub => outcome_sub(lhs, rhs, carry_in, w),
        AluBinaryOperation::Adc => outcome_adc(lhs, rhs, carry_in, w),
        AluBinaryOperation::Sbb => outcome_sbb(lhs, rhs, carry_in, w),
        AluBinaryOperation::And | AluBinaryOperation::Xor | AluBinaryOperation::Bic
        | AluBinaryOperation::Or => {
            proof {
                lemma2_to64();
                assert(lhs < 256 && rhs < 256 ==> (lhs & rhs) < 256 && (lhs ^ rhs) < 256 && (lhs
                    & !rhs) < 256 && (lhs | rhs) < 256) by (bit_vector);
            }
            match op {
                AluBinaryOperation::And => (lhs & rhs, false, false),
                AluBinaryOperation::Xor => (lhs ^ rhs, false, false),
                AluBinaryOperation::Bic => (lhs & !rhs, false, false),
                _ => (lhs | rhs, false, false),
            }
        },
        AluBinaryOperation::Shl => outcome_shl(lhs, rhs, carry_in, w),
        AluBinaryOperation::Shr => outcome_shr(lhs, rhs, carry_in, w),
        AluBinaryOperation::Sar => outcome_sar(lhs, rhs, carry_in, w),
        AluBinaryOperation::Rol => outcome_rol(lhs, rhs, carry_in, w),
        AluBinaryOperation::Ror => outcome_ror(lhs, rhs, carry_in, w),
    }
}

/// Returns the number of set bits of `v`.
fn popcount_exec(v: u32) -> (r: u32)
    ensures
        r as nat == popcount(v as nat),
        r <= 32,
{
    let mut rest = v;
    let mut count: u32 = 0;
    proof {
        lemma2_to64();
        lemma_bits_left_bound(v as nat, 32);
    }
    while rest > 0
        invariant
            count as nat + popcount(rest as nat) == popcount(v as nat),
            count <= 32 - bits_left(rest as nat),
        decreases rest,
    {
        proof {
            lemma_bits_left_halves(rest as nat);
        }
        count = count + rest % 2;
        rest = rest / 2;
    }
    count
}

/// The number of bits needed to write `v`.
spec fn bits_left(v: nat) -> nat
    decreases v,
{
    if v == 0 {
        0
    } else {
        1 + bits_left(v / 2)
    }
}

proof fn lemma_bits_left_halves(v: nat)
    requires
        0 < v,
        v <= u32::MAX,
    ensures
        bits_left(v) == 1 + bits_left(v / 2),
        bits_left(v) <= 32,
{
    lemma2_to64();
    lemma_bits_left_bound(v, 32);
}

proof fn lemma_bits_left_bound(v: nat, k: nat)
    requires
        v < pow2(k),
    ensures
        bits_left(v) <= k,
    decreases k,
{
    lemma_pow2_pos(k);
    if v > 0 {
        if k == 0 {
            lemma2_to64();
        } else {
            lemma_pow2_unfold(k);
            lemma_bits_left_bound(v / 2, (k - 1) as nat);
        }
    }
}

fn unary_neg(v: u16, carry_in: bool, w: u32) -> (r: (u16, bool, bool))
    requires
        valid_width(w as nat),
        v < pow2(w as nat),
    ensures
        r.0 as int == unary_outcome(AluUnaryOperation::Neg, v, carry_in, w as nat).0,
        r.1 == unary_outcome(AluUnaryOperation::Neg, v, carry_in, w as nat).1,
        r.2 == unary_outcome(AluUnaryOperation::Neg, v, carry_in, w as nat).2,
        r.0 < pow2(w as nat),
{
    let m = pow2_exec(w);
    let half = pow2_exec(w - 1);
    let x = v as u32;
    proof {
        lemma_width_powers(w as nat, 0);
        lemma2_to64();
        lemma_mod_pos_bound(m - x, m as int);
    }
    (((m - x) % m) as u16, x != 0, x == half)
}

fn unary_not(v: u16, carry_in: bool, w: u32) -> (r: (u16, bool, bool))
    requires
        valid_width(w as nat),
        v < pow2(w as nat),
    ensures
        r.0 as int == unary_outcome(AluUnaryOperation::Not, v, carry_in, w as nat).0,
        r.1 == unary_outcome(AluUnaryOperation::Not, v, carry_in, w as nat).1,
        r.2 == unary_outcome(AluUnaryOperation::Not, v, carry_in, w as nat).2,
        r.0 < pow2(w as nat),
{
    let m = pow2_exec(w);
    let x = v as u32;
    proof {
        lemma_width_powers(w as nat, 0);
        lemma2_to64();
    }
    ((m - 1 - x) as u16, false, false)
}

fn unary_inc(v: u16, carry_in: bool, w: u32) -> (r: (u16, bool, bool))
    requires
        valid_width(w as nat),
        v < pow2(w as nat),
    ensures
        r.0 as int == unary_outcome(AluUnaryOperation::Inc, v, carry_in, w as nat).0,
        r.1 == unary_outcome(AluUnaryOperation::Inc, v, carry_in, w as nat).1,
        r.2 == unary_outcome(AluUnaryOperation::Inc, v, carry_in, w as nat).2,
        r.0 < pow2(w as nat),
{
    let m = pow2_exec(w);
    let half = pow2_exec(w - 1);
    let x = v as u32;
    proof {
        lemma_width_powers(w as nat, 0);
        lemma2_to64();
        lemma_mod_pos_bound(x + 1, m as int);
    }
    (((x + 1) % m) as u16, carry_in, x == half - 1)
}

fn unary_dec(v: u16, carry_in: bool, w: u32) -> (r: (u16, bool, bool))
    requires
        valid_width(w as nat),
        v < pow2(w as nat),
    ensures
        r.0 as int == unary_outcome(AluUnaryOperation::Dec, v, carry_in, w as nat).0,
        r.1 == unary_outcome(AluUnaryOperation::Dec, v, carry_in, w as nat).1,
        r.2 == unary_outcome(AluUnaryOperation::Dec, v, carry_in, w as nat).2,
        r.0 < pow2(w as nat),
{
    let m = pow2_exec(w);
    let half = pow2_exec(w - 1);
    let x = v as u32;
    proof {
        lemma_width_powers(w as nat, 0);
        lemma2_to64();
        lemma_mod_shift(x - 1, 1, m as int);
        lemma_mod_pos_bound(x + m - 1, m as int);
    }
    (((x + m - 1) % m) as u16, carry_in, x == half)
}

fn unary_abs(v: u16, carry_in: bool, w: u32) -> (r: (u16, bool, bool))
    requires
        valid_width(w as nat),
        v < pow2(w as nat),
    ensures
        r.0 as int == unary_outcome(AluUnaryOperation::Abs, v, carry_in, w as nat).0,
        r.1 == unary_outcome(AluUnaryOperation::Abs, v, carry_in, w as nat).1,
        r.2 == unary_outcome(AluUnaryOperation::Abs, v, carry_in, w as nat).2,
        r.0 < pow2(w as nat),
{
    let m = pow2_exec(w);
    let half = pow2_exec(w - 1);
    let x = v as u32;
    proof {
        lemma_width_powers(w as nat, 0);
        lemma2_to64();
    }
    let r = if x >= half {
        proof {
            lemma_mod_pos_bound(m - x, m as int);
        }
        (m - x) % m
    } else {
        proof {
            lemma_fundamental_div_mod_converse(x as int, m as int, 0, x as int);
        }
        x
    };
    (r as u16, x >= half, x == half)
}

fn unary_sgxt(v: u16, carry_in: bool, w: u32) -> (r: (u16, bool, bool))
    requires
        valid_width(w as nat),
        v < pow2(w as nat),
    ensures
        r.0 as int == unary_outcome(AluUnaryOperation::Sgxt, v, carry_in, w as nat).0,
        r.1 == unary_outcome(AluUnaryOperation::Sgxt, v, carry_in, w as nat).1,
        r.2 == unary_outcome(AluUnaryOperation::Sgxt, v, carry_in, w as nat).2,
        r.0 < pow2(w as nat),
{
    let x = v as u32;
    proof {
        lemma_width_powers(w as nat, 0);
        lemma2_to64();
    }
    if w == 8 {
        (v, false, false)
    } else {
        let low = x % 256;
        let r = if low >= 128 {
            proof {
                lemma_mod_shift(low - 256, 1, 0x10000);
                lemma_fundamental_div_mod_converse(low + 0xFF00, 0x10000, 0, low + 0xFF00);
            }
            low + 0xFF00
        } else {
            proof {
                lemma_fundamental_div_mod_converse(low as int, 0x10000, 0, low as int);
            }
            low
        };
        (r as u16, false, false)
    }
}

fn unary_swap(v: u16, carry_in: bool, w: u32) -> (r: (u16, bool, bool))
    requires
        valid_width(w as nat),
        v < pow2(w as nat),
    ensures
        r.0 as int == unary_outcome(AluUnaryOperation::Swap, v, carry_in, w as nat).0,
        r.1 == unary_outcome(AluUnaryOperation::Swap, v, carry_in, w as nat).1,
        r.2 == unary_outcome(AluUnaryOperation::Swap, v, carry_in, w as nat).2,
        r.0 < pow2(w as nat),
{
    let x = v as u32;
    proof {
        lemma_width_powers(w as nat, 0);
        lemma2_to64();
        lemma_pow2_pos(w as nat / 2);
    }
    let p = pow2_exec(w / 2);
    proof {
        lemma_quotient_bound(x as int, p as int, p as int);
        lemma_shifted_bound(x as int, p as int, p as int, x as int / p as int);
    }
    ((x / p + (x % p) * p) as u16, false, false)
}

fn unary_popcnt(v: u16, carry_in: bool, w: u32) -> (r: (u16, bool, bool))
    requires
        valid_width(w as nat),
        v < pow2(w as nat),
    ensures
        r.0 as int == unary_outcome(AluUnaryOperation::Popcnt, v, carry_in, w as nat).0,
        r.1 == unary_outcome(AluUnaryOperation::Popcnt, v, carry_in, w as nat).1,
        r.2 == unary_outcome(AluUnaryOperation::Popcnt, v, carry_in, w as nat).2,
        r.0 < pow2(w as nat),
{
    let x = v as u32;
    proof {
        lemma_width_powers(w as nat, 0);
        lemma2_to64();
    }
    let n = popcount_exec(x);
    proof {
        lemma_popcount_bound(x as nat, w as nat);
    }
    (n as u16, false, false)
}

fn unary_rcl(v: u16, carry_in: bool, w: u32) -> (r: (u16, bool, bool))
    requires
        valid_width(w as nat),
        v < pow2(w as nat),
    ensures
        r.0 as int == unary_outcome(AluUnaryOperation::Rcl, v, carry_in, w as nat).0,
        r.1 == unary_outcome(AluUnaryOperation::Rcl, v, carry_in, w as nat).1,
        r.2 == unary_outcome(AluUnaryOperation::Rcl, v, carry_in, w as nat).2,
        r.0 < pow2(w as nat),
{
    let m = pow2_exec(w);
    let half = pow2_exec(w - 1);
    let x = v as u32;
    let c: u32 = if carry_in {
        1
    } else {
        0
    };
    proof {
        lemma_width_powers(w as nat, 0);
        lemma2_to64();
    }
    (((x % half) * 2 + c) as u16, bit_set_exec(x, w - 1), false)
}

fn unary_rcr(v: u16, carry_in: bool, w: u32) -> (r: (u16, bool, bool))
    requires
        valid_width(w as nat),
        v < pow2(w as nat),
    ensures
        r.0 as int == unary_outcome(AluUnaryOperation::Rcr, v, carry_in, w as nat).0,
        r.1 == unary_outcome(AluUnaryOperation::Rcr, v, carry_in, w as nat).1,
        r.2 == unary_outcome(AluUnaryOperation::Rcr, v, carry_in, w as nat).2,
        r.0 < pow2(w as nat),
{
    let m = pow2_exec(w);
    let half = pow2_exec(w - 1);
    let x = v as u32;
    let c: u32 = if carry_in {
        1
    } else {
        0
    };
    proof {
        lemma_width_powers(w as nat, 0);
        lemma2_to64();
    }
    ((x / 2 + c * half) as u16, bit_set_exec(x, 0), false)
}

fn unary_zero(v: u16, carry_in: bool, w: u32) -> (r: (u16, bool, bool))
    requires
        valid_width(w as nat),
        v < pow2(w as nat),
    ensures
        r.0 as int == unary_outcome(AluUnaryOperation::Zero, v, carry_in, w as nat).0,
        r.1 == unary_outcome(AluUnaryOperation::Zero, v, carry_in, w as nat).1,
        r.2 == unary_outcome(AluUnaryOperation::Zero, v, carry_in, w as nat).2,
        r.0 < pow2(w as nat),
{
    let m = pow2_exec(w);
    let half = pow2_exec(w - 1);
    let x = v as u32;
    proof {
        lemma_width_powers(w as nat, 0);
        lemma2_to64();
    }
    (v, x == m - 1, x == half - 1)
}

/// What a unary operation computes on a `w`-bit operand, with its carry and overflow
/// flags.
pub fn unary_outcome_exec(op: AluUnaryOperation, v: u16, carry_in: bool, w: u32) -> (r: (
    u16,
    bool,
    bool,
))
    requires
        valid_width(w as nat),
        v < pow2(w as nat),
    ensures
        r.0 as int == unary_outcome(op, v, carry_in, w as nat).0,
        r.1 == unary_outcome(op, v, carry_in, w as nat).1,
        r.2 == unary_outcome(op, v, carry_in, w as nat).2,
        r.0 < pow2(w as nat),
{
    match op {
        AluUnaryOperation::Neg => unary_neg(v, carry_in, w),
        AluUnaryOperation::Not => unary_not(v, carry_in, w),
        AluUnaryOperation::Inc => unary_inc(v, carry_in, w),
        AluUnaryOperation::Dec => unary_dec(v, carry_in, w),
        AluUnaryOperation::Abs => unary_abs(v, carry_in, w),
        AluUnaryOperation::Sgxt => unary_sgxt(v, carry_in, w),
        AluUnaryOperation::Swap => unary_swap(v, carry_in, w),
        AluUnaryOperation::Popcnt => unary_popcnt(v, carry_in, w),
        AluUnaryOperation::Rcl => unary_rcl(v, carry_in, w),
        AluUnaryOperation::Rcr => unary_rcr(v, carry_in, w),
        AluUnaryOperation::Zero => unary_zero(v, carry_in, w),
    }
}

/// A `w`-bit value has at most `w` set bits.
proof fn lemma_popcount_bound(v: nat, w: nat)
    requires
        v < pow2(w),
    ensures
        popcount(v) <= w,
    decreases w,
{
    lemma_pow2_pos(w);
    if v > 0 {
        if w == 0 {
            lemma2_to64();
        } else {
            lemma_pow2_unfold(w);
            lemma_popcount_bound(v / 2, (w - 1) as nat);
        }
    }
}

} // verus!
