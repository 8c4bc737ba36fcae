//! The built-in integer types as matrix elements.
//!
//! Integer arithmetic wraps: a result is the representative, within the type's
//! range, of the exact result modulo two to the power of the type's width. Text
//! is decimal.
use crate::helpers::text::{decimal, render_signed, render_unsigned, signed_decimal};
use crate::helpers::traits::{LawfulNumerical, Numerical};
use vstd::arithmetic::div_mod::{
    lemma_add_mod_noop, lemma_mod_bound, lemma_mod_multiples_vanish, lemma_mul_mod_noop,
    lemma_small_mod,
};
use vstd::prelude::*;

verus! {

/// The representative of `x` modulo `modulus` that lies in `[0, modulus)`.
pub open spec fn wrap_unsigned(x: int, modulus: int) -> int {
    x % modulus
}

/// The representative of `x` modulo `modulus` that lies in `[-modulus / 2, modulus / 2)`.
pub open spec fn wrap_signed(x: int, modulus: int) -> int {
    let r = x % modulus;
    if 2 * r >= modulus {
        r - modulus
    } else {
        r
    }
}

/// A value less than one modulus away from `[0, modulus)` wraps by a single step.
pub proof fn lemma_wrap_one_step(x: int, modulus: int)
    requires
        modulus > 0,
        -modulus <= x < 2 * modulus,
    ensures
        x % modulus == if x < 0 {
            x + modulus
        } else if x >= modulus {
            x - modulus
        } else {
            x
        },
{
    if x < 0 {
        lemma_mod_multiples_vanish(-1, x + modulus, modulus);
        lemma_small_mod((x + modulus) as nat, modulus as nat);
    } else if x >= modulus {
        lemma_mod_multiples_vanish(1, x - modulus, modulus);
        lemma_small_mod((x - modulus) as nat, modulus as nat);
    } else {
        lemma_small_mod(x as nat, modulus as nat);
    }
}

/// Wrapping does not change a value modulo `modulus`.
pub proof fn lemma_wrap_signed_congruent(x: int, modulus: int)
    requires
        modulus > 0,
    ensures
        wrap_signed(x, modulus) % modulus == x % modulus,
{
    let r = x % modulus;
    lemma_mod_bound(x, modulus);
    if 2 * r >= modulus {
        lemma_mod_multiples_vanish(-1, r, modulus);
    }
    lemma_small_mod(r as nat, modulus as nat);
}

/// Wrapping an operand first does not change a wrapped sum.
pub proof fn lemma_wrap_unsigned_add(x: int, y: int, modulus: int)
    requires
        modulus > 0,
    ensures
        wrap_unsigned(wrap_unsigned(x, modulus) + y, modulus) == wrap_unsigned(x + y, modulus),
        wrap_unsigned(x + wrap_unsigned(y, modulus), modulus) == wrap_unsigned(x + y, modulus),
{
    lemma_add_mod_noop(x, y, modulus);
    lemma_add_mod_noop(x % modulus, y, modulus);
    lemma_add_mod_noop(x, y % modulus, modulus);
    lemma_mod_bound(x, modulus);
    lemma_mod_bound(y, modulus);
    lemma_small_mod((x % modulus) as nat, modulus as nat);
    lemma_small_mod((y % modulus) as nat, modulus as nat);
}

/// Wrapping an operand first does not change a wrapped product.
pub proof fn lemma_wrap_unsigned_mul(x: int, y: int, modulus: int)
    requires
        modulus > 0,
    ensures
        wrap_unsigned(wrap_unsigned(x, modulus) * y, modulus) == wrap_unsigned(x * y, modulus),
        wrap_unsigned(x * wrap_unsigned(y, modulus), modulus) == wrap_unsigned(x * y, modulus),
{
    lemma_mul_mod_noop(x, y, modulus);
    lemma_mul_mod_noop(x % modulus, y, modulus);
    lemma_mul_mod_noop(x, y % modulus, modulus);
    lemma_mod_bound(x, modulus);
    lemma_mod_bound(y, modulus);
    lemma_small_mod((x % modulus) as nat, modulus as nat);
    lemma_small_mod((y % modulus) as nat, modulus as nat);
}

/// Wrapping an operand first does not change a wrapped sum.
pub proof fn lemma_wrap_signed_add(x: int, y: int, modulus: int)
    requires
        modulus > 0,
    ensures
        wrap_signed(wrap_signed(x, modulus) + y, modulus) == wrap_signed(x + y, modulus),
        wrap_signed(x + wrap_signed(y, modulus), modulus) == wrap_signed(x + y, modulus),
{
    lemma_wrap_signed_congruent(x, modulus);
    lemma_wrap_signed_congruent(y, modulus);
    lemma_add_mod_noop(x, y, modulus);
    lemma_add_mod_noop(wrap_signed(x, modulus), y, modulus);
    lemma_add_mod_noop(x, wrap_signed(y, modulus), modulus);
}

/// Wrapping an operand first does not change a wrapped product.
pub proof fn lemma_wrap_signed_mul(x: int, y: int, modulus: int)
    requires
        modulus > 0,
    ensures
        wrap_signed(wrap_signed(x, modulus) * y, modulus) == wrap_signed(x * y, modulus),
        wrap_signed(x * wrap_signed(y, modulus), modulus) == wrap_signed(x * y, modulus),
{
    lemma_wrap_signed_congruent(x, modulus);
    lemma_wrap_signed_congruent(y, modulus);
    lemma_mul_mod_noop(x, y, modulus);
    lemma_mul_mod_noop(wrap_signed(x, modulus), y, modulus);
    lemma_mul_mod_noop(x, wrap_signed(y, modulus), modulus);
}

impl Numerical for u8 {
    open spec fn spec_zero() -> u8 {
        0
    }

    open spec fn spec_ident() -> u8 {
        1
    }

    open spec fn sum(self, rhs: u8) -> u8 {
        wrap_unsigned(self + rhs, 0x100) as u8
    }

    open spec fn difference(self, rhs: u8) -> u8 {
        wrap_unsigned(self - rhs, 0x100) as u8
    }

    open spec fn product(self, rhs: u8) -> u8 {
        wrap_unsigned(self * rhs, 0x100) as u8
    }

    open spec fn spec_render(self) -> Seq<char> {
        decimal(self as nat)
    }

    fn ident() -> (r: u8) {
        1
    }

    fn zero() -> (r: u8) {
        0
    }

    fn add(self, rhs: u8) -> (r: u8) {
        self.wrapping_add(rhs)
    }

    fn sub(self, rhs: u8) -> (r: u8) {
        self.wrapping_sub(rhs)
    }

    fn mul(self, rhs: u8) -> (r: u8) {
        self.wrapping_mul(rhs)
    }

    fn render(&self) -> (s: String) {
        render_unsigned(*self as u128)
    }
}

impl LawfulNumerical for u8 {
    proof fn lemma_add_associative(a: u8, b: u8, c: u8) {
        lemma_wrap_unsigned_add(a + b, c as int, 0x100);
        lemma_wrap_unsigned_add(a as int, b + c, 0x100);
    }

    proof fn lemma_add_commutative(a: u8, b: u8) {
    }

    proof fn lemma_mul_associative(a: u8, b: u8, c: u8) {
        lemma_wrap_unsigned_mul(a * b, c as int, 0x100);
        lemma_wrap_unsigned_mul(a as int, b * c, 0x100);
        assert((a * b) * c == a * (b * c)) by (nonlinear_arith);
    }

    proof fn lemma_mul_commutative(a: u8, b: u8) {
        assert(a * b == b * a) by (nonlinear_arith);
    }
}

impl Numerical for u16 {
    open spec fn spec_zero() -> u16 {
        0
    }

    open spec fn spec_ident() -> u16 {
        1
    }

    open spec fn sum(self, rhs: u16) -> u16 {
        wrap_unsigned(self + rhs, 0x1_0000) as u16
    }

    open spec fn difference(self, rhs: u16) -> u16 {
        wrap_unsigned(self - rhs, 0x1_0000) as u16
    }

    open spec fn product(self, rhs: u16) -> u16 {
        wrap_unsigned(self * rhs, 0x1_0000) as u16
    }

    open spec fn spec_render(self) -> Seq<char> {
        decimal(self as nat)
    }

    fn ident() -> (r: u16) {
        1
    }

    fn zero() -> (r: u16) {
        0
    }

    fn add(self, rhs: u16) -> (r: u16) {
        self.wrapping_add(rhs)
    }

    fn sub(self, rhs: u16) -> (r: u16) {
        self.wrapping_sub(rhs)
    }

    fn mul(self, rhs: u16) -> (r: u16) {
        self.wrapping_mul(rhs)
    }

    fn render(&self) -> (s: String) {
        render_unsigned(*self as u128)
    }
}

impl LawfulNumerical for u16 {
    proof fn lemma_add_associative(a: u16, b: u16, c: u16) {
        lemma_wrap_unsigned_add(a + b, c as int, 0x1_0000);
        lemma_wrap_unsigned_add(a as int, b + c, 0x1_0000);
    }

    proof fn lemma_add_commutative(a: u16, b: u16) {
    }

    proof fn lemma_mul_associative(a: u16, b: u16, c: u16) {
        lemma_wrap_unsigned_mul(a * b, c as int, 0x1_0000);
        lemma_wrap_unsigned_mul(a as int, b * c, 0x1_0000);
        assert((a * b) * c == a * (b * c)) by (nonlinear_arith);
    }

    proof fn lemma_mul_commutative(a: u16, b: u16) {
        assert(a * b == b * a) by (nonlinear_arith);
    }
}

impl Numerical for u32 {
    open spec fn spec_zero() -> u32 {
        0
    }

    open spec fn spec_ident() -> u32 {
        1
    }

    open spec fn sum(self, rhs: u32) -> u32 {
        wrap_unsigned(self + rhs, 0x1_0000_0000) as u32
    }

    open spec fn difference(self, rhs: u32) -> u32 {
        wrap_unsigned(self - rhs, 0x1_0000_0000) as u32
    }

    open spec fn product(self, rhs: u32) -> u32 {
        wrap_unsigned(self * rhs, 0x1_0000_0000) as u32
    }

    open spec fn spec_render(self) -> Seq<char> {
        decimal(self as nat)
    }

    fn ident() -> (r: u32) {
        1
    }

    fn zero() -> (r: u32) {
        0
    }

    fn add(self, rhs: u32) -> (r: u32) {
        self.wrapping_add(rhs)
    }

    fn sub(self, rhs: u32) -> (r: u32) {
        self.wrapping_sub(rhs)
    }

    fn mul(self, rhs: u32) -> (r: u32) {
        self.wrapping_mul(rhs)
    }

    fn render(&self) -> (s: String) {
        render_unsigned(*self as u128)
    }
}

impl LawfulNumerical for u32 {
    proof fn lemma_add_associative(a: u32, b: u32, c: u32) {
        lemma_wrap_unsigned_add(a + b, c as int, 0x1_0000_0000);
        lemma_wrap_unsigned_add(a as int, b + c, 0x1_0000_0000);
    }

    proof fn lemma_add_commutative(a: u32, b: u32) {
    }

    proof fn lemma_mul_associative(a: u32, b: u32, c: u32) {
        lemma_wrap_unsigned_mul(a * b, c as int, 0x1_0000_0000);
        lemma_wrap_unsigned_mul(a as int, b * c, 0x1_0000_0000);
        assert((a * b) * c == a * (b * c)) by (nonlinear_arith);
    }

    proof fn lemma_mul_commutative(a: u32, b: u32) {
        assert(a * b == b * a) by (nonlinear_arith);
    }
}

impl Numerical for u64 {
    open spec fn spec_zero() -> u64 {
        0
    }

    open spec fn spec_ident() -> u64 {
        1
    }

    open spec fn sum(self, rhs: u64) -> u64 {
        wrap_unsigned(self + rhs, 0x1_0000_0000_0000_0000) as u64
    }

    open spec fn difference(self, rhs: u64) -> u64 {
        wrap_unsigned(self - rhs, 0x1_0000_0000_0000_0000) as u64
    }

    open spec fn product(self, rhs: u64) -> u64 {
        wrap_unsigned(self * rhs, 0x1_0000_0000_0000_0000) as u64
    }

    open spec fn spec_render(self) -> Seq<char> {
        decimal(self as nat)
    }

    fn ident() -> (r: u64) {
        1
    }

    fn zero() -> (r: u64) {
        0
    }

    fn add(self, rhs: u64) -> (r: u64) {
        self.wrapping_add(rhs)
    }

    fn sub(self, rhs: u64) -> (r: u64) {
        self.wrapping_sub(rhs)
    }

    fn mul(self, rhs: u64) -> (r: u64) {
        self.wrapping_mul(rhs)
    }

    fn render(&self) -> (s: String) {
        render_unsigned(*self as u128)
    }
}

impl LawfulNumerical for u64 {
    proof fn lemma_add_associative(a: u64, b: u64, c: u64) {
        lemma_wrap_unsigned_add(a + b, c as int, 0x1_0000_0000_0000_0000);
        lemma_wrap_unsigned_add(a as int, b + c, 0x1_0000_0000_0000_0000);
    }

    proof fn lemma_add_commutative(a: u64, b: u64) {
    }

    proof fn lemma_mul_associative(a: u64, b: u64, c: u64) {
        lemma_wrap_unsigned_mul(a * b, c as int, 0x1_0000_0000_0000_0000);
        lemma_wrap_unsigned_mul(a as int, b * c, 0x1_0000_0000_0000_0000);
        assert((a * b) * c == a * (b * c)) by (nonlinear_arith);
    }

    proof fn lemma_mul_commutative(a: u64, b: u64) {
        assert(a * b == b * a) by (nonlinear_arith);
    }
}

impl Numerical for u128 {
    open spec fn spec_zero() -> u128 {
        0
    }

    open spec fn spec_ident() -> u128 {
        1
    }

    open spec fn sum(self, rhs: u128) -> u128 {
        wrap_unsigned(self + rhs, (u128::MAX + 1)) as u128
    }

    open spec fn difference(self, rhs: u128) -> u128 {
        wrap_unsigned(self - rhs, (u128::MAX + 1)) as u128
    }

    open spec fn product(self, rhs: u128) -> u128 {
        wrap_unsigned(self * rhs, (u128::MAX + 1)) as u128
    }

    open spec fn spec_render(self) -> Seq<char> {
        decimal(self as nat)
    }

    fn ident() -> (r: u128) {
        1
    }

    fn zero() -> (r: u128) {
        0
    }

    fn add(self, rhs: u128) -> (r: u128) {
        self.wrapping_add(rhs)
    }

    fn sub(self, rhs: u128) -> (r: u128) {
        self.wrapping_sub(rhs)
    }

    fn mul(self, rhs: u128) -> (r: u128) {
        self.wrapping_mul(rhs)
    }

    fn render(&self) -> (s: String) {
        render_unsigned(*self as u128)
    }
}

impl LawfulNumerical for u128 {
    proof fn lemma_add_associative(a: u128, b: u128, c: u128) {
        lemma_wrap_unsigned_add(a + b, c as int, (u128::MAX + 1));
        lemma_wrap_unsigned_add(a as int, b + c, (u128::MAX + 1));
    }

    proof fn lemma_add_commutative(a: u128, b: u128) {
    }

    proof fn lemma_mul_associative(a: u128, b: u128, c: u128) {
        lemma_wrap_unsigned_mul(a * b, c as int, (u128::MAX + 1));
        lemma_wrap_unsigned_mul(a as int, b * c, (u128::MAX + 1));
        assert((a * b) * c == a * (b * c)) by (nonlinear_arith);
    }

    proof fn lemma_mul_commutative(a: u128, b: u128) {
        assert(a * b == b * a) by (nonlinear_arith);
    }
}

impl Numerical for usize {
    open spec fn spec_zero() -> usize {
        0
    }

    open spec fn spec_ident() -> usize {
        1
    }

    open spec fn sum(self, rhs: usize) -> usize {
        wrap_unsigned(self + rhs, (usize::MAX + 1)) as usize
    }

    open spec fn difference(self, rhs: usize) -> usize {
        wrap_unsigned(self - rhs, (usize::MAX + 1)) as usize
    }

    open spec fn product(self, rhs: usize) -> usize {
        wrap_unsigned(self * rhs, (usize::MAX + 1)) as usize
    }

    open spec fn spec_render(self) -> Seq<char> {
        decimal(self as nat)
    }

    fn ident() -> (r: usize) {
        1
    }

    fn zero() -> (r: usize) {
        0
    }

    fn add(self, rhs: usize) -> (r: usize) {
        proof {
            lemma_wrap_one_step(self + rhs, usize::MAX + 1);
        }
        self.wrapping_add(rhs)
    }

    fn sub(self, rhs: usize) -> (r: usize) {
        proof {
            lemma_wrap_one_step(self - rhs, usize::MAX + 1);
        }
        self.wrapping_sub(rhs)
    }

    fn mul(self, rhs: usize) -> (r: usize) {
        self.wrapping_mul(rhs)
    }

    fn render(&self) -> (s: String) {
        render_unsigned(*self as u128)
    }
}

impl LawfulNumerical for usize {
    proof fn lemma_add_associative(a: usize, b: usize, c: usize) {
        lemma_wrap_unsigned_add(a + b, c as int, (usize::MAX + 1));
        lemma_wrap_unsigned_add(a as int, b + c, (usize::MAX + 1));
    }

    proof fn lemma_add_commutative(a: usize, b: usize) {
    }

    proof fn lemma_mul_associative(a: usize, b: usize, c: usize) {
        lemma_wrap_unsigned_mul(a * b, c as int, (usize::MAX + 1));
        lemma_wrap_unsigned_mul(a as int, b * c, (usize::MAX + 1));
        assert((a * b) * c == a * (b * c)) by (nonlinear_arith);
    }

    proof fn lemma_mul_commutative(a: usize, b: usize) {
        assert(a * b == b * a) by (nonlinear_arith);
    }
}

impl Numerical for i16 {
    open spec fn spec_zero() -> i16 {
        0
    }

    open spec fn spec_ident() -> i16 {
        1
    }

    open spec fn sum(self, rhs: i16) -> i16 {
        wrap_signed(self + rhs, 0x1_0000) as i16
    }

    open spec fn difference(self, rhs: i16) -> i16 {
        wrap_signed(self - rhs, 0x1_0000) as i16
    }

    open spec fn product(self, rhs: i16) -> i16 {
        wrap_signed(self * rhs, 0x1_0000) as i16
    }

    open spec fn spec_render(self) -> Seq<char> {
        signed_decimal(self as int)
    }

    fn ident() -> (r: i16) {
        1
    }

    fn zero() -> (r: i16) {
        0
    }

    fn add(self, rhs: i16) -> (r: i16) {
        self.wrapping_add(rhs)
    }

    fn sub(self, rhs: i16) -> (r: i16) {
        self.wrapping_sub(rhs)
    }

    fn mul(self, rhs: i16) -> (r: i16) {
        self.wrapping_mul(rhs)
    }

    fn render(&self) -> (s: String) {
        render_signed(*self as i128)
    }
}

impl LawfulNumerical for i16 {
    proof fn lemma_add_associative(a: i16, b: i16, c: i16) {
        lemma_wrap_signed_add(a + b, c as int, 0x1_0000);
        lemma_wrap_signed_add(a as int, b + c, 0x1_0000);
    }

    proof fn lemma_add_commutative(a: i16, b: i16) {
    }

    proof fn lemma_mul_associative(a: i16, b: i16, c: i16) {
        lemma_wrap_signed_mul(a * b, c as int, 0x1_0000);
        lemma_wrap_signed_mul(a as int, b * c, 0x1_0000);
        assert((a * b) * c == a * (b * c)) by (nonlinear_arith);
    }

    proof fn lemma_mul_commutative(a: i16, b: i16) {
        assert(a * b == b * a) by (nonlinear_arith);
    }
}

impl Numerical for i32 {
    open spec fn spec_zero() -> i32 {
        0
    }

    open spec fn spec_ident() -> i32 {
        1
    }

    open spec fn sum(self, rhs: i32) -> i32 {
        wrap_signed(self + rhs, 0x1_0000_0000) as i32
    }

    open spec fn difference(self, rhs: i32) -> i32 {
        wrap_signed(self - rhs, 0x1_0000_0000) as i32
    }

    open spec fn product(self, rhs: i32) -> i32 {
        wrap_signed(self * rhs, 0x1_0000_0000) as i32
    }

    open spec fn spec_render(self) -> Seq<char> {
        signed_decimal(self as int)
    }

    fn ident() -> (r: i32) {
        1
    }

    fn zero() -> (r: i32) {
        0
    }

    fn add(self, rhs: i32) -> (r: i32) {
        self.wrapping_add(rhs)
    }

    fn sub(self, rhs: i32) -> (r: i32) {
        self.wrapping_sub(rhs)
    }

    fn mul(self, rhs: i32) -> (r: i32) {
        self.wrapping_mul(rhs)
    }

    fn render(&self) -> (s: String) {
        render_signed(*self as i128)
    }
}

impl LawfulNumerical for i32 {
    proof fn lemma_add_associative(a: i32, b: i32, c: i32) {
        lemma_wrap_signed_add(a + b, c as int, 0x1_0000_0000);
        lemma_wrap_signed_add(a as int, b + c, 0x1_0000_0000);
    }

    proof fn lemma_add_commutative(a: i32, b: i32) {
    }

    proof fn lemma_mul_associative(a: i32, b: i32, c: i32) {
        lemma_wrap_signed_mul(a * b, c as int, 0x1_0000_0000);
        lemma_wrap_signed_mul(a as int, b * c, 0x1_0000_0000);
        assert((a * b) * c == a * (b * c)) by (nonlinear_arith);
    }

    proof fn lemma_mul_commutative(a: i32, b: i32) {
        assert(a * b == b * a) by (nonlinear_arith);
    }
}

impl Numerical for i64 {
    open spec fn spec_zero() -> i64 {
        0
    }

    open spec fn spec_ident() -> i64 {
        1
    }

    open spec fn sum(self, rhs: i64) -> i64 {
        wrap_signed(self + rhs, 0x1_0000_0000_0000_0000) as i64
    }

    open spec fn difference(self, rhs: i64) -> i64 {
        wrap_signed(self - rhs, 0x1_0000_0000_0000_0000) as i64
    }

    open spec fn product(self, rhs: i64) -> i64 {
        wrap_signed(self * rhs, 0x1_0000_0000_0000_0000) as i64
    }

    open spec fn spec_render(self) -> Seq<char> {
        signed_decimal(self as int)
    }

    fn ident() -> (r: i64) {
        1
    }

    fn zero() -> (r: i64) {
        0
    }

    fn add(self, rhs: i64) -> (r: i64) {
        self.wrapping_add(rhs)
    }

    fn sub(self, rhs: i64) -> (r: i64) {
        self.wrapping_sub(rhs)
    }

    fn mul(self, rhs: i64) -> (r: i64) {
        self.wrapping_mul(rhs)
    }

    fn render(&self) -> (s: String) {
        render_signed(*self as i128)
    }
}

impl LawfulNumerical for i64 {
    proof fn lemma_add_associative(a: i64, b: i64, c: i64) {
        lemma_wrap_signed_add(a + b, c as int, 0x1_0000_0000_0000_0000);
        lemma_wrap_signed_add(a as int, b + c, 0x1_0000_0000_0000_0000);
    }

    proof fn lemma_add_commutative(a: i64, b: i64) {
    }

    proof fn lemma_mul_associative(a: i64, b: i64, c: i64) {
        lemma_wrap_signed_mul(a * b, c as int, 0x1_0000_0000_0000_0000);
        lemma_wrap_signed_mul(a as int, b * c, 0x1_0000_0000_0000_0000);
        assert((a * b) * c == a * (b * c)) by (nonlinear_arith);
    }

    proof fn lemma_mul_commutative(a: i64, b: i64) {
        assert(a * b == b * a) by (nonlinear_arith);
    }
}

impl Numerical for i128 {
    open spec fn spec_zero() -> i128 {
        0
    }

    open spec fn spec_ident() -> i128 {
        1
    }

    open spec fn sum(self, rhs: i128) -> i128 {
        wrap_signed(self + rhs, (u128::MAX + 1)) as i128
    }

    open spec fn difference(self, rhs: i128) -> i128 {
        wrap_signed(self - rhs, (u128::MAX + 1)) as i128
    }

    open spec fn product(self, rhs: i128) -> i128 {
        wrap_signed(self * rhs, (u128::MAX + 1)) as i128
    }

    open spec fn spec_render(self) -> Seq<char> {
        signed_decimal(self as int)
    }

    fn ident() -> (r: i128) {
        1
    }

    fn zero() -> (r: i128) {
        0
    }

    fn add(self, rhs: i128) -> (r: i128) {
        self.wrapping_add(rhs)
    }

    fn sub(self, rhs: i128) -> (r: i128) {
        self.wrapping_sub(rhs)
    }

    fn mul(self, rhs: i128) -> (r: i128) {
        self.wrapping_mul(rhs)
    }

    fn render(&self) -> (s: String) {
        render_signed(*self as i128)
    }
}

impl LawfulNumerical for i128 {
    proof fn lemma_add_associative(a: i128, b: i128, c: i128) {
        lemma_wrap_signed_add(a + b, c as int, (u128::MAX + 1));
        lemma_wrap_signed_add(a as int, b + c, (u128::MAX + 1));
    }

    proof fn lemma_add_commutative(a: i128, b: i128) {
    }

    proof fn lemma_mul_associative(a: i128, b: i128, c: i128) {
        lemma_wrap_signed_mul(a * b, c as int, (u128::MAX + 1));
        lemma_wrap_signed_mul(a as int, b * c, (u128::MAX + 1));
        assert((a * b) * c == a * (b * c)) by (nonlinear_arith);
    }

    proof fn lemma_mul_commutative(a: i128, b: i128) {
        assert(a * b == b * a) by (nonlinear_arith);
    }
}

impl Numerical for isize {
    open spec fn spec_zero() -> isize {
        0
    }

    open spec fn spec_ident() -> isize {
        1
    }

    open spec fn sum(self, rhs: isize) -> isize {
        wrap_signed(self + rhs, (usize::MAX + 1)) as isize
    }

    open spec fn difference(self, rhs: isize) -> isize {
        wrap_signed(self - rhs, (usize::MAX + 1)) as isize
    }

    open spec fn product(self, rhs: isize) -> isize {
        wrap_signed(self * rhs, (usize::MAX + 1)) as isize
    }

    open spec fn spec_render(self) -> Seq<char> {
        signed_decimal(self as int)
    }

    fn ident() -> (r: isize) {
        1
    }

    fn zero() -> (r: isize) {
        0
    }

    fn add(self, rhs: isize) -> (r: isize) {
        proof {
            lemma_wrap_one_step(self + rhs, usize::MAX + 1);
        }
        self.wrapping_add(rhs)
    }

    fn sub(self, rhs: isize) -> (r: isize) {
        proof {
            lemma_wrap_one_step(self - rhs, usize::MAX + 1);
        }
        self.wrapping_sub(rhs)
    }

    fn mul(self, rhs: isize) -> (r: isize) {
        self.wrapping_mul(rhs)
    }

    fn render(&self) -> (s: String) {
        render_signed(*self as i128)
    }
}

impl LawfulNumerical for isize {
    proof fn lemma_add_associative(a: isize, b: isize, c: isize) {
        lemma_wrap_signed_add(a + b, c as int, (usize::MAX + 1));
        lemma_wrap_signed_add(a as int, b + c, (usize::MAX + 1));
    }

    proof fn lemma_add_commutative(a: isize, b: isize) {
    }

    proof fn lemma_mul_associative(a: isize, b: isize, c: isize) {
        lemma_wrap_signed_mul(a * b, c as int, (usize::MAX + 1));
        lemma_wrap_signed_mul(a as int, b * c, (usize::MAX + 1));
        assert((a * b) * c == a * (b * c)) by (nonlinear_arith);
    }

    proof fn lemma_mul_commutative(a: isize, b: isize) {
        assert(a * b == b * a) by (nonlinear_arith);
    }
}

} // verus!
