//! Single-precision numbers, held by their IEEE 754 bit patterns and computed
//! with in integers.
//!
//! Every finite single-precision number is a whole multiple of 2^-149. The
//! specifications speak of that multiple, so that ordering, rounding and
//! printing are statements about integers.

use vstd::arithmetic::power2::pow2;
use vstd::prelude::*;
use vstd::std_specs::cmp::PartialEqSpecImpl;

use crate::text::{decimal, decimal_text, digit, digit_char};

verus! {

/// A single-precision number. Two are equal where they stand for the same
/// number: zero has two patterns, and what is no number is not even equal to
/// itself.
#[derive(Clone, Copy, Debug)]
pub struct Binary32 {
    /// The bit pattern: one sign bit, eight exponent bits, 23 fraction bits.
    pub bits: u32,
}

impl PartialEqSpecImpl for Binary32 {
    open spec fn obeys_eq_spec() -> bool {
        true
    }

    open spec fn eq_spec(&self, other: &Self) -> bool {
        self.equals(*other)
    }
}

impl PartialEq for Binary32 {
    fn eq(&self, other: &Self) -> (equal: bool) {
        self.is_equal(*other)
    }
}

/// One more than the largest fraction.
pub const HIDDEN_BIT: u32 = 0x80_0000;

/// The bit pattern of the sign alone.
pub const SIGN_BIT: u32 = 0x8000_0000;

impl Binary32 {
    /// The exponent bits.
    pub open spec fn exponent(self) -> nat {
        ((self.bits / HIDDEN_BIT) % 256) as nat
    }

    /// The fraction bits.
    pub open spec fn fraction(self) -> nat {
        (self.bits % HIDDEN_BIT) as nat
    }

    /// Whether the sign bit is set.
    pub open spec fn negative(self) -> bool {
        self.bits >= SIGN_BIT
    }

    /// Whether the pattern stands for no number at all.
    pub open spec fn nan(self) -> bool {
        self.exponent() == 255 && self.fraction() != 0
    }

    /// Whether the pattern stands for a number that is neither infinite nor
    /// undefined.
    pub open spec fn finite(self) -> bool {
        self.exponent() != 255
    }

    /// The leading bits of the number, as an integer.
    pub open spec fn significand(self) -> nat {
        if self.exponent() == 0 {
            self.fraction()
        } else {
            HIDDEN_BIT as nat + self.fraction()
        }
    }

    /// The power of two that the significand is scaled by, counted from 2^-149.
    pub open spec fn scale(self) -> nat {
        if self.exponent() == 0 {
            0
        } else {
            (self.exponent() - 1) as nat
        }
    }

    /// The absolute value in units of 2^-149. An infinity lies beyond every
    /// finite number.
    pub open spec fn magnitude(self) -> nat {
        self.significand() * pow2(self.scale())
    }

    /// The value in units of 2^-149.
    pub open spec fn value(self) -> int {
        if self.negative() {
            -(self.magnitude() as int)
        } else {
            self.magnitude() as int
        }
    }

    /// Whether the number lies strictly above another; false where either
    /// pattern stands for no number.
    pub open spec fn above(self, other: Binary32) -> bool {
        !self.nan() && !other.nan() && self.value() > other.value()
    }

    /// Whether two patterns stand for the same number.
    pub open spec fn equals(self, other: Binary32) -> bool {
        !self.nan() && !other.nan() && self.value() == other.value()
    }

    /// The number limited to the range from `minimum` to `maximum`.
    pub open spec fn limited(self, minimum: Binary32, maximum: Binary32) -> Binary32 {
        if minimum.above(self) {
            minimum
        } else if self.above(maximum) {
            maximum
        } else {
            self
        }
    }

    /// The pattern without its sign.
    fn unsigned(self) -> (bits: u32)
        ensures
            bits < SIGN_BIT,
            (Binary32 { bits }).magnitude() == self.magnitude(),
            (Binary32 { bits }).value() == self.magnitude(),
            self.bits == if self.negative() {
                bits + SIGN_BIT
            } else {
                bits as int
            },
    {
        if self.bits >= SIGN_BIT {
            self.bits - SIGN_BIT
        } else {
            self.bits
        }
    }

    /// Decides whether the pattern stands for a finite number.
    pub fn is_finite(self) -> (finite: bool)
        ensures
            finite == self.finite(),
    {
        (self.bits / HIDDEN_BIT) % 256 != 255
    }

    /// Decides whether the pattern stands for no number.
    pub fn is_nan(self) -> (nan: bool)
        ensures
            nan == self.nan(),
    {
        (self.bits / HIDDEN_BIT) % 256 == 255 && self.bits % HIDDEN_BIT != 0
    }

    /// Decides whether the number lies strictly above another.
    pub fn is_above(self, other: Binary32) -> (above: bool)
        ensures
            above == self.above(other),
    {
        if self.is_nan() || other.is_nan() {
            return false;
        }
        let a: u32 = self.unsigned();
        let b: u32 = other.unsigned();
        proof {
            pattern_order(a, b);
            pattern_order(0, a);
            pattern_order(0, b);
            zero_pattern();
        }
        if self.bits < SIGN_BIT {
            if other.bits < SIGN_BIT {
                a > b
            } else {
                a > 0 || b > 0
            }
        } else if other.bits < SIGN_BIT {
            false
        } else {
            b > a
        }
    }

    /// Decides whether two patterns stand for the same number.
    pub fn is_equal(self, other: Binary32) -> (equal: bool)
        ensures
            equal == self.equals(other),
    {
        if self.is_nan() || other.is_nan() {
            return false;
        }
        !self.is_above(other) && !other.is_above(self)
    }

    /// Limits the number to a range.
    pub fn clamp(self, minimum: Binary32, maximum: Binary32) -> (limited: Binary32)
        requires
            self.finite(),
            minimum.finite(),
            maximum.finite(),
            minimum.value() <= maximum.value(),
        ensures
            limited == self.limited(minimum, maximum),
            limited.finite(),
            minimum.value() <= limited.value() <= maximum.value(),
    {
        if minimum.is_above(self) {
            minimum
        } else if self.is_above(maximum) {
            maximum
        } else {
            self
        }
    }

    /// The larger of two finite numbers, the first where they are equal.
    pub fn max(self, other: Binary32) -> (larger: Binary32)
        requires
            self.finite(),
            other.finite(),
        ensures
            larger == if other.above(self) {
                other
            } else {
                self
            },
    {
        if other.is_above(self) {
            other
        } else {
            self
        }
    }
}

proof fn zero_pattern()
    ensures
        (Binary32 { bits: 0 }).magnitude() == 0,
        (Binary32 { bits: 0 }).value() == 0,
{
    assert((Binary32 { bits: 0 }).significand() == 0);
}

/// Unsigned patterns stand in the order of the numbers they denote.
pub proof fn pattern_order(a: u32, b: u32)
    requires
        a < SIGN_BIT,
        b < SIGN_BIT,
    ensures
        a < b ==> (Binary32 { bits: a }).value() < (Binary32 { bits: b }).value(),
        a == b ==> (Binary32 { bits: a }).value() == (Binary32 { bits: b }).value(),
        a > b ==> (Binary32 { bits: a }).value() > (Binary32 { bits: b }).value(),
{
    if a < b {
        pattern_order_strict(a, b);
    } else if b < a {
        pattern_order_strict(b, a);
    }
}

proof fn pattern_order_strict(a: u32, b: u32)
    requires
        a < b < SIGN_BIT,
    ensures
        (Binary32 { bits: a }).magnitude() < (Binary32 { bits: b }).magnitude(),
    decreases b - a,
{
    let last = (b - 1) as u32;
    next_pattern(last);
    if a < last {
        pattern_order_strict(a, last);
    }
}

proof fn next_pattern(bits: u32)
    requires
        bits + 1 < SIGN_BIT,
    ensures
        (Binary32 { bits }).magnitude() < (Binary32 { bits: (bits + 1) as u32 }).magnitude(),
{
    let here = Binary32 { bits };
    let next = Binary32 { bits: (bits + 1) as u32 };
    vstd::arithmetic::power2::lemma_pow2_pos(here.scale());
    vstd::arithmetic::power2::lemma_pow2_pos(next.scale());
    if bits % HIDDEN_BIT + 1 < HIDDEN_BIT {
        assert(next.exponent() == here.exponent());
        assert(next.fraction() == here.fraction() + 1);
        let p = pow2(here.scale());
        let s = here.significand();
        assert(s * p < (s + 1) * p) by (nonlinear_arith)
            requires
                p > 0,
        ;
    } else {
        assert(next.fraction() == 0);
        assert(next.exponent() == here.exponent() + 1);
        let s = here.significand();
        if here.exponent() == 0 {
            assert(pow2(0) == 1) by {
                vstd::arithmetic::power2::lemma2_to64();
            }
            assert(next.scale() == 0);
            assert(here.magnitude() == s);
            assert(next.magnitude() == HIDDEN_BIT);
        } else {
            vstd::arithmetic::power2::lemma_pow2_unfold(next.scale());
            let p = pow2(here.scale());
            assert(pow2(next.scale()) == 2 * p);
            assert(s == 2 * 0x80_0000 - 1);
            assert(s * p < 0x80_0000 * (2 * p)) by (nonlinear_arith)
                requires
                    p > 0,
                    s == 2 * 0x80_0000 - 1,
            ;
            assert(next.magnitude() == 0x80_0000 * (2 * p));
        }
    }
}

/// The quotient rounded to the nearest integer, to the even one where two are
/// equally near.
pub open spec fn round_even(num: nat, den: nat) -> nat {
    let floor = num / den;
    let rest = num % den;
    if 2 * rest < den || (2 * rest == den && floor % 2 == 0) {
        floor
    } else {
        floor + 1
    }
}

/// The quotient rounded to the nearest integer, upwards where two are equally
/// near.
pub open spec fn round_half_up(num: nat, den: nat) -> nat {
    (2 * num + den) / (2 * den)
}

/// How often a ratio must be doubled so that its integer part has 24 bits; a
/// negative count says how often it must be halved.
pub open spec fn shift_of(num: nat, den: nat) -> int
    decreases
            if num < den * 0x80_0000 {
                2int
            } else {
                1int
            },
            if num < den * 0x80_0000 {
                den * 0x80_0000 - num
            } else {
                (num / den) as int
            },
{
    if num == 0 || den == 0 {
        0
    } else if num < den * 0x80_0000 {
        shift_of(2 * num, den) + 1
    } else if num >= den * 0x100_0000 {
        proof {
            halved_quotient(num, den);
        }
        shift_of(num, 2 * den) - 1
    } else {
        0
    }
}

/// Doubling the divisor lowers a quotient of 2^24 or more.
pub proof fn halved_quotient(num: nat, den: nat)
    requires
        den > 0,
        num >= den * 0x100_0000,
    ensures
        num / (2 * den) < num / den,
        num >= (2 * den) * 0x80_0000,
{
    let q = num / (2 * den);
    assert(num == (2 * den) * q + num % (2 * den)) by {
        vstd::arithmetic::div_mod::lemma_fundamental_div_mod(num as int, (2 * den) as int);
    }
    assert(q >= 1) by (nonlinear_arith)
        requires
            num >= den * 0x100_0000,
            num == (2 * den) * q + num % (2 * den),
            num % (2 * den) < 2 * den,
            den > 0,
    ;
    assert(num / den >= 2 * q) by {
        vstd::arithmetic::div_mod::lemma_fundamental_div_mod(num as int, den as int);
        assert(num / den >= 2 * q) by (nonlinear_arith)
            requires
                num >= (2 * den) * q,
                num == den * (num / den) + num % den,
                num % den < den,
                den > 0,
        ;
    }
}

/// A non-negative ratio rounded to single precision: a significand of at most
/// 24 bits (or the next power of two), and how often it is to be halved.
pub open spec fn nearest(num: nat, den: nat) -> (nat, int) {
    let shift = shift_of(num, den);
    if num == 0 {
        (0, 0)
    } else if shift >= 0 {
        (round_even(num * pow2(shift as nat), den), shift)
    } else {
        (round_even(num, den * pow2((-shift) as nat)), shift)
    }
}

/// The numerator of the ratio that a significand and its shift stand for.
pub open spec fn ratio_num(single: (nat, int)) -> nat {
    if single.1 >= 0 {
        single.0
    } else {
        single.0 * pow2((-single.1) as nat)
    }
}

/// The denominator of the ratio that a significand and its shift stand for.
pub open spec fn ratio_den(single: (nat, int)) -> nat {
    if single.1 >= 0 {
        pow2(single.1 as nat)
    } else {
        1
    }
}

/// Dividing both sides of a ratio by a common factor changes neither the
/// quotient nor, but for that factor, the remainder.
proof fn common_factor(a: nat, b: nat, c: nat)
    requires
        b > 0,
        c > 0,
    ensures
        b * c > 0,
        (a * c) / (b * c) == a / b,
        (a * c) % (b * c) == (a % b) * c,
        round_even(a * c, b * c) == round_even(a, b),
        round_half_up(a * c, b * c) == round_half_up(a, b),
{
    quotient_common_factor(a, b, c);
    quotient_common_factor(2 * a + b, 2 * b, c);
    assert(2 * (a * c) + b * c == (2 * a + b) * c) by (nonlinear_arith);
    assert(2 * (b * c) == (2 * b) * c) by (nonlinear_arith);
    let rest = a % b;
    assert(2 * (rest * c) < b * c <==> 2 * rest < b) by (nonlinear_arith)
        requires
            c > 0,
    ;
    assert(2 * (rest * c) == b * c <==> 2 * rest == b) by (nonlinear_arith)
        requires
            c > 0,
    ;
}

proof fn quotient_common_factor(a: nat, b: nat, c: nat)
    requires
        b > 0,
        c > 0,
    ensures
        b * c > 0,
        (a * c) / (b * c) == a / b,
        (a * c) % (b * c) == (a % b) * c,
{
    let q = a / b;
    let r = a % b;
    vstd::arithmetic::div_mod::lemma_fundamental_div_mod(a as int, b as int);
    assert(b * c > 0) by (nonlinear_arith)
        requires
            b > 0,
            c > 0,
    ;
    assert(a * c == q * (b * c) + r * c) by (nonlinear_arith)
        requires
            a == b * q + r,
    ;
    assert(0 <= r * c < b * c) by (nonlinear_arith)
        requires
            0 <= r < b,
            c > 0,
    ;
    vstd::arithmetic::div_mod::lemma_fundamental_div_mod_converse(
        (a * c) as int,
        (b * c) as int,
        q as int,
        (r * c) as int,
    );
}

proof fn shift_common_factor(a: nat, b: nat, c: nat)
    requires
        b > 0,
        c > 0,
    ensures
        shift_of(a * c, b * c) == shift_of(a, b),
    decreases
            if a < b * 0x80_0000 {
                2int
            } else {
                1int
            },
            if a < b * 0x80_0000 {
                b * 0x80_0000 - a
            } else {
                (a / b) as int
            },
{
    assert(a * c == 0 <==> a == 0) by (nonlinear_arith)
        requires
            c > 0,
    ;
    assert(b * c > 0) by (nonlinear_arith)
        requires
            b > 0,
            c > 0,
    ;
    assert(a * c < (b * c) * 0x80_0000 <==> a < b * 0x80_0000) by (nonlinear_arith)
        requires
            c > 0,
    ;
    assert(a * c >= (b * c) * 0x100_0000 <==> a >= b * 0x100_0000) by (nonlinear_arith)
        requires
            c > 0,
    ;
    if a == 0 {
    } else if a < b * 0x80_0000 {
        shift_common_factor(2 * a, b, c);
        assert((2 * a) * c == 2 * (a * c)) by (nonlinear_arith);
    } else if a >= b * 0x100_0000 {
        halved_quotient(a, b);
        shift_common_factor(a, 2 * b, c);
        assert((2 * b) * c == 2 * (b * c)) by (nonlinear_arith);
    }
}

/// Rounding a ratio to single precision depends on its value alone.
pub proof fn nearest_common_factor(a: nat, b: nat, c: nat)
    requires
        b > 0,
        c > 0,
    ensures
        nearest(a * c, b * c) == nearest(a, b),
{
    shift_common_factor(a, b, c);
    assert(a * c == 0 <==> a == 0) by (nonlinear_arith)
        requires
            c > 0,
    ;
    let shift = shift_of(a, b);
    if shift >= 0 {
        let p = pow2(shift as nat);
        common_factor(a * p, b, c);
        assert((a * c) * p == (a * p) * c) by (nonlinear_arith);
    } else {
        let p = pow2((-shift) as nat);
        vstd::arithmetic::power2::lemma_pow2_pos((-shift) as nat);
        assert(b * p > 0) by (nonlinear_arith)
            requires
                b > 0,
                p > 0,
        ;
        common_factor(a, b * p, c);
        assert((b * c) * p == (b * p) * c) by (nonlinear_arith);
    }
}

/// What the shift of a ratio says of the ratio.
proof fn shift_bounds(num: nat, den: nat)
    requires
        num > 0,
        den > 0,
    ensures
        shift_of(num, den) > 0 <==> num < den * 0x80_0000,
        shift_of(num, den) < 0 <==> num >= den * 0x100_0000,
        shift_of(num, den) > 0 ==> den * 0x80_0000 <= num * pow2(shift_of(num, den) as nat) < den
            * 0x100_0000,
        shift_of(num, den) < 0 ==> (den * pow2((-shift_of(num, den)) as nat)) * 0x80_0000 <= num < (
        den * pow2((-shift_of(num, den)) as nat)) * 0x100_0000,
    decreases
            if num < den * 0x80_0000 {
                2int
            } else {
                1int
            },
            if num < den * 0x80_0000 {
                den * 0x80_0000 - num
            } else {
                (num / den) as int
            },
{
    let shift = shift_of(num, den);
    assert(pow2(0) == 1) by {
        vstd::arithmetic::power2::lemma2_to64();
    }
    if num < den * 0x80_0000 {
        shift_bounds(2 * num, den);
        let inner = shift_of(2 * num, den);
        assert(shift == inner + 1);
        assert(inner >= 0);
        vstd::arithmetic::power2::lemma_pow2_unfold(shift as nat);
        let p = pow2(inner as nat);
        assert((2 * num) * p == num * (2 * p)) by (nonlinear_arith);
        if inner == 0 {
            assert((2 * num) * p == 2 * num) by (nonlinear_arith)
                requires
                    p == 1,
            ;
        }
    } else if num >= den * 0x100_0000 {
        halved_quotient(num, den);
        shift_bounds(num, 2 * den);
        let inner = shift_of(num, 2 * den);
        assert(shift == inner - 1);
        assert(inner <= 0);
        vstd::arithmetic::power2::lemma_pow2_unfold((-shift) as nat);
        let p = pow2((-inner) as nat);
        assert((2 * den) * p == den * (2 * p)) by (nonlinear_arith);
        if inner == 0 {
            assert((2 * den) * p == 2 * den) by (nonlinear_arith)
                requires
                    p == 1,
            ;
        }
    }
}

/// A power of two.
fn power_of_two(exponent: u32) -> (power: u128)
    requires
        exponent < 128,
    ensures
        power == pow2(exponent as nat),
{
    let mut power: u128 = 1;
    let mut i: u32 = 0;
    assert(pow2(0) == 1) by {
        vstd::arithmetic::power2::lemma2_to64();
    }
    while i < exponent
        invariant
            i <= exponent < 128,
            power == pow2(i as nat),
        decreases exponent - i,
    {
        proof {
            vstd::arithmetic::power2::lemma_pow2_unfold((i + 1) as nat);
            power_fits(i as nat);
        }
        power = power * 2;
        i += 1;
    }
    power
}

proof fn power_fits(exponent: nat)
    requires
        exponent < 127,
    ensures
        2 * pow2(exponent) <= 0x8000_0000_0000_0000_0000_0000_0000_0000,
{
    vstd::arithmetic::power2::lemma2_to64();
    vstd::arithmetic::power2::lemma2_to64_rest();
    vstd::arithmetic::power2::lemma_pow2_adds(63, 63);
    if exponent < 126 {
        vstd::arithmetic::power2::lemma_pow2_strictly_increases(exponent, 126);
    }
    let half = pow2(63);
    assert(half * half == 0x4000_0000_0000_0000_0000_0000_0000_0000) by (nonlinear_arith)
        requires
            half == 0x8000_0000_0000_0000,
    ;
}

/// Rounds a quotient to the nearest integer, to the even one on a tie.
fn rounded_even(num: u128, den: u128) -> (nearest: u128)
    requires
        0 < den <= 0x8000_0000_0000_0000_0000_0000_0000_0000,
        num < 0xffff_ffff_ffff_ffff_ffff_ffff_ffff_ffff,
    ensures
        nearest == round_even(num as nat, den as nat),
{
    let floor: u128 = num / den;
    let rest: u128 = num % den;
    let other: u128 = den - rest;
    proof {
        assert(floor <= num) by (nonlinear_arith)
            requires
                floor == num / den,
                den > 0,
        ;
    }
    if rest < other || (rest == other && floor % 2 == 0) {
        floor
    } else {
        floor + 1
    }
}

/// Rounds a ratio to single precision.
fn nearest_single(num: u128, den: u128) -> (single: (u128, i32))
    requires
        0 < den <= 0x1_0000_0000_0000_0000_0000_0000,
        num <= 0x1_0000_0000_0000_0000_0000_0000,
    ensures
        (single.0 as nat, single.1 as int) == nearest(num as nat, den as nat),
        single.0 <= 0x100_0000,
        -96 <= single.1 <= 120,
{
    if num == 0 {
        return (0, 0);
    }
    proof {
        shift_bounds(num as nat, den as nat);
    }
    let mut shift: i32 = 0;
    assert(pow2(0) == 1) by {
        vstd::arithmetic::power2::lemma2_to64();
    }
    if num < den * 0x80_0000 {
        let mut n: u128 = num;
        assert(num * pow2(0) == num) by (nonlinear_arith)
            requires
                pow2(0) == 1,
        ;
        while n < den * 0x80_0000
            invariant
                0 < den <= 0x1_0000_0000_0000_0000_0000_0000,
                0 < num <= n < den * 0x100_0000,
                0 <= shift <= 120,
                n == num * pow2(shift as nat),
                shift_of(num as nat, den as nat) == shift + shift_of(n as nat, den as nat),
            decreases den * 0x100_0000 - n,
        {
            proof {
                let p = pow2(shift as nat);
                vstd::arithmetic::power2::lemma_pow2_unfold((shift + 1) as nat);
                assert(num * (2 * p) == 2 * (num * p)) by (nonlinear_arith);
                assert(p <= n) by (nonlinear_arith)
                    requires
                        n == num * p,
                        num >= 1,
                ;
                if shift >= 120 {
                    power_120();
                }
            }
            n = n * 2;
            shift += 1;
        }
        proof {
            shift_bounds(n as nat, den as nat);
            significand_fits(n as nat, den as nat);
        }
        (rounded_even(n, den), shift)
    } else {
        let mut d: u128 = den;
        assert(den * pow2(0) == den) by (nonlinear_arith)
            requires
                pow2(0) == 1,
        ;
        while num >= d * 0x100_0000
            invariant
                num <= 0x1_0000_0000_0000_0000_0000_0000,
                0 < d,
                d * 0x80_0000 <= num,
                -96 <= shift <= 0,
                den >= 1,
                d == den * pow2((-shift) as nat),
                shift_of(num as nat, den as nat) == shift + shift_of(num as nat, d as nat),
            decreases num - d,
        {
            proof {
                let p = pow2((-shift) as nat);
                vstd::arithmetic::power2::lemma_pow2_unfold((1 - shift) as nat);
                assert(den * (2 * p) == 2 * (den * p)) by (nonlinear_arith);
                assert(p <= d) by (nonlinear_arith)
                    requires
                        d == den * p,
                        den >= 1,
                ;
                if shift <= -96 {
                    power_96();
                }
            }
            d = d * 2;
            shift -= 1;
        }
        proof {
            shift_bounds(num as nat, d as nat);
            significand_fits(num as nat, d as nat);
        }
        (rounded_even(num, d), shift)
    }
}

proof fn power_96()
    ensures
        pow2(96) == 0x1_0000_0000_0000_0000_0000_0000,
{
    vstd::arithmetic::power2::lemma2_to64();
    vstd::arithmetic::power2::lemma_pow2_adds(32, 64);
    let low = pow2(32);
    let high = pow2(64);
    assert(low * high == 0x1_0000_0000_0000_0000_0000_0000) by (nonlinear_arith)
        requires
            low == 0x1_0000_0000,
            high == 0x1_0000_0000_0000_0000,
    ;
}

proof fn power_120()
    ensures
        pow2(120) == 0x100_0000_0000_0000_0000_0000_0000_0000,
{
    power_96();
    vstd::arithmetic::power2::lemma2_to64();
    vstd::arithmetic::power2::lemma_pow2_adds(24, 96);
    let low = pow2(24);
    let high = pow2(96);
    assert(low * high == 0x100_0000_0000_0000_0000_0000_0000_0000) by (nonlinear_arith)
        requires
            low == 0x100_0000,
            high == 0x1_0000_0000_0000_0000_0000_0000,
    ;
}

proof fn significand_fits(num: nat, den: nat)
    requires
        den > 0,
        num < den * 0x100_0000,
    ensures
        round_even(num, den) <= 0x100_0000,
{
    vstd::arithmetic::div_mod::lemma_fundamental_div_mod(num as int, den as int);
    let q = num / den;
    assert(q < 0x100_0000) by (nonlinear_arith)
        requires
            num < den * 0x100_0000,
            num == den * q + num % den,
            num % den >= 0,
            den > 0,
    ;
}

/// The pattern of the number one.
pub const ONE: u32 = 0x3f80_0000;

/// The pattern of the number one hundred.
pub const ONE_HUNDRED: u32 = 0x42c8_0000;

/// The pattern of the number nearest to three tenths.
pub const THREE_TENTHS: u32 = 0x3e99_999a;

/// The pattern of the number three.
pub const THREE: u32 = 0x4040_0000;

/// The number with a given pattern.
#[verifier::allow_in_spec]
pub fn single(bits: u32) -> Binary32
    returns
        (Binary32 { bits }),
{
    Binary32 { bits }
}

/// Splits a power of two.
proof fn power_split(low: nat, high: nat)
    ensures
        pow2(low) * pow2(high) == pow2(low + high),
        pow2(low) > 0,
        pow2(high) > 0,
{
    vstd::arithmetic::power2::lemma_pow2_adds(low, high);
    vstd::arithmetic::power2::lemma_pow2_pos(low);
    vstd::arithmetic::power2::lemma_pow2_pos(high);
}

/// The named numbers are what their names say.
pub proof fn named_numbers()
    ensures
        single(ONE).finite() && single(ONE).value() == pow2(149),
        single(ONE_HUNDRED).finite() && single(ONE_HUNDRED).value() == 100 * pow2(149),
        single(THREE_TENTHS).finite() && single(THREE_TENTHS).value() == 0x99_999a * pow2(124),
        single(THREE).finite() && single(THREE).value() == 3 * pow2(149),
{
    vstd::arithmetic::power2::lemma2_to64();
    power_split(23, 126);
    assert(single(ONE).significand() == 0x80_0000 && single(ONE).scale() == 126);
    power_split(17, 132);
    assert(single(ONE_HUNDRED).significand() == 100 * 0x2_0000 && single(ONE_HUNDRED).scale() == 132);
    let p = pow2(132);
    assert((100 * 0x2_0000) * p == 100 * (0x2_0000 * p)) by (nonlinear_arith);
    assert(single(THREE_TENTHS).significand() == 0x99_999a && single(THREE_TENTHS).scale() == 124);
    power_split(22, 127);
    assert(single(THREE).significand() == 3 * 0x40_0000 && single(THREE).scale() == 127);
    let q = pow2(127);
    assert((3 * 0x40_0000) * q == 3 * (0x40_0000 * q)) by (nonlinear_arith);
}

impl Binary32 {
    /// The whole number that the pattern stands for, if it is one.
    pub open spec fn whole(self) -> Option<nat> {
        if self.finite() && self.value() >= 0 && self.value() % (pow2(149) as int) == 0 {
            Some((self.value() / (pow2(149) as int)) as nat)
        } else {
            None
        }
    }

    /// Reads a number between one and one hundred as a whole number.
    pub fn whole_number(self) -> (number: Option<u32>)
        requires
            self.finite(),
            single(ONE).value() <= self.value() <= single(ONE_HUNDRED).value(),
        ensures
            match number {
                Some(n) => self.whole() == Some(n as nat) && 1 <= n <= 100,
                None => self.whole() is None,
            },
    {
        proof {
            named_numbers();
            vstd::arithmetic::power2::lemma_pow2_pos(149);
            positive_pattern(self);
            pattern_order(self.bits, ONE);
            pattern_order(self.bits, ONE_HUNDRED);
        }
        let exponent: u32 = self.bits / HIDDEN_BIT;
        let significand: u128 = (HIDDEN_BIT + self.bits % HIDDEN_BIT) as u128;
        let unit: u128 = power_of_two(150 - exponent);
        proof {
            let rest = pow2((exponent - 1) as nat);
            power_split((150 - exponent) as nat, (exponent - 1) as nat);
            common_factor(significand as nat, unit as nat, rest);
            assert(self.value() == significand * rest);
            let whole = significand as nat / unit as nat;
            assert(self.value() / (pow2(149) as int) == whole);
            assert(self.value() % (pow2(149) as int) == 0 <==> significand as nat % unit as nat
                == 0) by {
                let left = significand as nat % unit as nat;
                assert(left * rest == 0 <==> left == 0) by (nonlinear_arith)
                    requires
                        rest > 0,
                ;
            }
            let big = pow2(149) as int;
            let v = self.value();
            assert(1 <= v / big <= 100) by (nonlinear_arith)
                requires
                    big > 0,
                    big <= v <= 100 * big,
            ;
        }
        if significand % unit == 0 {
            Some((significand / unit) as u32)
        } else {
            None
        }
    }

    /// The number times one thousand, in single precision.
    pub open spec fn thousandfold(self) -> (nat, int) {
        nearest(self.magnitude() * 1000, pow2(149))
    }

    /// The product of the number and one thousand, rounded to single precision
    /// and then to the nearest integer, away from zero on a tie.
    pub open spec fn thousandths(self) -> nat {
        round_half_up(ratio_num(self.thousandfold()), ratio_den(self.thousandfold()))
    }

    /// Reads a number between three tenths and three in thousandths.
    pub fn in_thousandths(self) -> (count: u64)
        requires
            self.finite(),
            single(THREE_TENTHS).value() <= self.value() <= single(THREE).value(),
        ensures
            count == self.thousandths(),
            300 <= count <= 3000,
    {
        proof {
            named_numbers();
            vstd::arithmetic::power2::lemma_pow2_pos(149);
            vstd::arithmetic::power2::lemma_pow2_pos(124);
            assert(0x99_999a * pow2(124) > 0) by (nonlinear_arith)
                requires
                    pow2(124) > 0,
            ;
            positive_pattern(self);
            pattern_order(self.bits, THREE_TENTHS);
            pattern_order(self.bits, THREE);
        }
        let exponent: u32 = self.bits / HIDDEN_BIT;
        let significand: u128 = (HIDDEN_BIT + self.bits % HIDDEN_BIT) as u128;
        let unit: u128 = power_of_two(150 - exponent);
        proof {
            let rest = pow2((exponent - 1) as nat);
            power_split((150 - exponent) as nat, (exponent - 1) as nat);
            nearest_common_factor(significand as nat * 1000, unit as nat, rest);
            assert(self.magnitude() == significand * rest);
            let m = significand as nat;
            assert((m * 1000) * rest == (m * rest) * 1000) by (nonlinear_arith);
            vstd::arithmetic::power2::lemma2_to64();
            assert(0x40_0000 <= unit <= 0x200_0000) by {
                assert(exponent == 125 || exponent == 126 || exponent == 127 || exponent == 128);
            }
            shift_bounds(significand as nat * 1000, unit as nat);
        }
        let (digits, shift) = nearest_single(significand * 1000, unit);
        let den: u128 = power_of_two(shift as u32);
        proof {
            power_fits(shift as nat);
            vstd::arithmetic::power2::lemma_pow2_pos(shift as nat);
        }
        let count: u128 = (2 * digits + den) / (2 * den);
        proof {
            thousandths_are_in_range(self);
        }
        count as u64
    }
}

proof fn positive_pattern(number: Binary32)
    requires
        number.value() > 0,
    ensures
        !number.negative(),
        number.bits < SIGN_BIT,
{
}

/// Rounding keeps the order of quotients.
proof fn rounding_keeps_order(a: nat, b: nat, den: nat)
    requires
        den > 0,
        a <= b,
    ensures
        round_even(a, den) <= round_even(b, den),
{
    let (fa, ra, fb, rb) = (a / den, a % den, b / den, b % den);
    vstd::arithmetic::div_mod::lemma_fundamental_div_mod(a as int, den as int);
    vstd::arithmetic::div_mod::lemma_fundamental_div_mod(b as int, den as int);
    vstd::arithmetic::div_mod::lemma_div_is_ordered(a as int, b as int, den as int);
    if fa == fb {
        assert(ra <= rb);
    }
}

/// A greater ratio needs no more doublings.
proof fn shifts_fall(a: nat, b: nat, den: nat)
    requires
        den > 0,
        0 < a <= b,
        shift_of(b, den) > 0,
    ensures
        shift_of(a, den) >= shift_of(b, den),
{
    let (s, t) = (shift_of(a, den), shift_of(b, den));
    shift_bounds(a, den);
    shift_bounds(b, den);
    if s < t {
        vstd::arithmetic::power2::lemma_pow2_unfold(t as nat);
        let (p, q) = (pow2(s as nat), pow2((t - 1) as nat));
        if s < t - 1 {
            vstd::arithmetic::power2::lemma_pow2_strictly_increases(s as nat, (t - 1) as nat);
        }
        assert(a * p <= b * q) by (nonlinear_arith)
            requires
                a <= b,
                p <= q,
        ;
        assert(b * (2 * q) == 2 * (b * q)) by (nonlinear_arith);
        assert(false);
    }
}

/// Rounding to the nearest integer keeps the order of ratios.
proof fn half_up_keeps_order(a: nat, p: nat, b: nat, q: nat)
    requires
        p > 0,
        q > 0,
        a * q <= b * p,
    ensures
        round_half_up(a, p) <= round_half_up(b, q),
{
    let n = round_half_up(a, p);
    vstd::arithmetic::div_mod::lemma_fundamental_div_mod((2 * a + p) as int, (2 * p) as int);
    assert(n * (2 * p) <= 2 * a + p) by (nonlinear_arith)
        requires
            2 * a + p == (2 * p) * n + (2 * a + p) % (2 * p),
            (2 * a + p) % (2 * p) >= 0,
    ;
    assert(n * (2 * q) <= 2 * b + q) by (nonlinear_arith)
        requires
            n * (2 * p) <= 2 * a + p,
            a * q <= b * p,
            p > 0,
            q > 0,
    ;
    vstd::arithmetic::div_mod::lemma_div_is_ordered(
        (n * (2 * q)) as int,
        (2 * b + q) as int,
        (2 * q) as int,
    );
    vstd::arithmetic::div_mod::lemma_div_multiples_vanish(n as int, (2 * q) as int);
}

/// Of two numbers between three tenths and three, the greater has no fewer
/// thousandths.
pub proof fn thousandths_keep_order(a: Binary32, b: Binary32)
    requires
        a.finite(),
        b.finite(),
        single(THREE_TENTHS).value() <= a.value() <= b.value() <= single(THREE).value(),
    ensures
        a.thousandths() <= b.thousandths(),
{
    named_numbers();
    let den = pow2(149);
    vstd::arithmetic::power2::lemma_pow2_pos(149);
    vstd::arithmetic::power2::lemma_pow2_pos(124);
    assert(0x99_999a * pow2(124) > 0) by (nonlinear_arith)
        requires
            pow2(124) > 0,
    ;
    positive_pattern(a);
    positive_pattern(b);
    let (m, n) = (a.magnitude() * 1000, b.magnitude() * 1000);
    assert(0 < m <= n);
    assert(n < den * 0x80_0000) by (nonlinear_arith)
        requires
            n <= 3 * den * 1000,
            den > 0,
    ;
    shift_bounds(m, den);
    shift_bounds(n, den);
    shifts_fall(m, n, den);
    let (s, t) = (shift_of(m, den), shift_of(n, den));
    let (p, q) = (pow2(s as nat), pow2(t as nat));
    let (x, y) = (nearest(m, den).0, nearest(n, den).0);
    vstd::arithmetic::power2::lemma_pow2_pos(s as nat);
    vstd::arithmetic::power2::lemma_pow2_pos(t as nat);
    if s == t {
        assert(m * p <= n * p) by (nonlinear_arith)
            requires
                m <= n,
        ;
        rounding_keeps_order(m * p, n * p, den);
        assert(x * q <= y * p) by (nonlinear_arith)
            requires
                x <= y,
                p == q,
        ;
    } else {
        significand_fits(m * p, den);
        significand_stays(n, den);
        vstd::arithmetic::power2::lemma_pow2_unfold(s as nat);
        if t < s - 1 {
            vstd::arithmetic::power2::lemma_pow2_strictly_increases(t as nat, (s - 1) as nat);
        }
        assert(x * q <= y * p) by (nonlinear_arith)
            requires
                x <= 0x100_0000,
                y >= 0x80_0000,
                2 * q <= p,
        ;
    }
    half_up_keeps_order(x, p, y, q);
}

/// A quotient without a rest is not rounded.
proof fn whole_quotient_stays(whole: nat, den: nat)
    requires
        den > 0,
    ensures
        round_even(whole * den, den) == whole,
        round_half_up(whole * den, den) == whole,
{
    vstd::arithmetic::div_mod::lemma_div_multiples_vanish(whole as int, den as int);
    vstd::arithmetic::div_mod::lemma_mod_multiples_basic(whole as int, den as int);
    assert((whole * den) as int == den * whole) by (nonlinear_arith);
    assert((2 * (whole * den) + den) / (2 * den) == whole) by {
        assert(2 * (whole * den) + den == whole * (2 * den) + den) by (nonlinear_arith);
        vstd::arithmetic::div_mod::lemma_fundamental_div_mod_converse(
            (2 * (whole * den) + den) as int,
            (2 * den) as int,
            whole as int,
            den as int,
        );
    }
}

/// A number between three tenths and three has between 300 and 3000
/// thousandths.
pub proof fn thousandths_are_in_range(number: Binary32)
    requires
        number.finite(),
        single(THREE_TENTHS).value() <= number.value() <= single(THREE).value(),
    ensures
        300 <= number.thousandths() <= 3000,
{
    named_numbers();
    let den = pow2(149);
    vstd::arithmetic::power2::lemma_pow2_pos(149);
    vstd::arithmetic::power2::lemma_pow2_pos(124);
    vstd::arithmetic::power2::lemma2_to64();
    power_split(25, 124);
    assert(0x99_999a * pow2(124) > 0) by (nonlinear_arith)
        requires
            pow2(124) > 0,
    ;
    positive_pattern(number);
    let n = number.magnitude() * 1000;
    assert(300 * den <= n <= 3000 * den);
    shift_bounds(n, den);
    let p = pow2(shift_of(n, den) as nat);
    vstd::arithmetic::power2::lemma_pow2_pos(shift_of(n, den) as nat);
    let x = nearest(n, den).0;
    assert((300 * p) * den <= n * p <= (3000 * p) * den) by (nonlinear_arith)
        requires
            300 * den <= n <= 3000 * den,
    ;
    rounding_keeps_order((300 * p) * den, n * p, den);
    rounding_keeps_order(n * p, (3000 * p) * den, den);
    whole_quotient_stays(300 * p, den);
    whole_quotient_stays(3000 * p, den);
    assert(300 * p <= x <= 3000 * p);
    assert((300 * p) * p <= x * p && x * p <= (3000 * p) * p) by (nonlinear_arith)
        requires
            300 * p <= x <= 3000 * p,
    ;
    half_up_keeps_order(300 * p, p, x, p);
    half_up_keeps_order(x, p, 3000 * p, p);
    whole_quotient_stays(300, p);
    whole_quotient_stays(3000, p);
}

/// A number between three tenths and three is rounded to the nearest count of
/// thousandths: at least half a thousandth more than a count is no longer that
/// count, and at most a quarter more is.
pub proof fn thousandths_are_near(number: Binary32, count: nat)
    requires
        number.finite(),
        single(THREE_TENTHS).value() <= number.value() <= single(THREE).value(),
    ensures
        (2 * count + 1) * pow2(149) <= 2000 * number.value() ==> count < number.thousandths(),
        count * pow2(149) <= 1000 * number.value() ==> count <= number.thousandths(),
        4000 * number.value() <= (4 * count + 1) * pow2(149) ==> number.thousandths() <= count,
{
    named_numbers();
    let den = pow2(149);
    vstd::arithmetic::power2::lemma_pow2_pos(149);
    vstd::arithmetic::power2::lemma_pow2_pos(124);
    assert(0x99_999a * pow2(124) > 0) by (nonlinear_arith)
        requires
            pow2(124) > 0,
    ;
    positive_pattern(number);
    let n = number.magnitude() * 1000;
    assert(0 < n <= 3000 * den);
    shift_bounds(n, den);
    let shift = shift_of(n, den);
    let p = pow2(shift as nat);
    assert(p >= 4) by (nonlinear_arith)
        requires
            den * 0x80_0000 <= n * p,
            n <= 3000 * den,
            den > 0,
    ;
    vstd::arithmetic::power2::lemma2_to64();
    vstd::arithmetic::power2::lemma_pow2_unfold(shift as nat);
    vstd::arithmetic::power2::lemma_pow2_unfold((shift - 1) as nat);
    let r = pow2((shift - 2) as nat);
    assert(p == 4 * r);
    let x = nearest(n, den).0;
    product_keeps_side(n, den, r, 4 * count + 2);
    product_keeps_side(n, den, r, 4 * count);
    product_keeps_side(n, den, r, 4 * count + 1);
    assert(number.thousandths() == (2 * x + p) / (2 * p));
    let found = number.thousandths();
    vstd::arithmetic::div_mod::lemma_fundamental_div_mod((2 * x + p) as int, (2 * p) as int);
    if (2 * count + 1) * den <= 2000 * number.value() {
        assert((4 * count + 2) * den == 2 * ((2 * count + 1) * den)) by (nonlinear_arith);
        assert(count < found) by (nonlinear_arith)
            requires
                (4 * count + 2) * r <= x,
                p == 4 * r,
                2 * x + p == (2 * p) * found + (2 * x + p) % (2 * p),
                (2 * x + p) % (2 * p) < 2 * p,
                r > 0,
        ;
    }
    if count * den <= 1000 * number.value() {
        assert((4 * count) * den == 4 * (count * den)) by (nonlinear_arith);
        assert(count <= found) by (nonlinear_arith)
            requires
                (4 * count) * r <= x,
                p == 4 * r,
                2 * x + p == (2 * p) * found + (2 * x + p) % (2 * p),
                (2 * x + p) % (2 * p) < 2 * p,
                r > 0,
        ;
    }
    if 4000 * number.value() <= (4 * count + 1) * den {
        assert(found <= count) by (nonlinear_arith)
            requires
                x <= (4 * count + 1) * r,
                p == 4 * r,
                2 * x + p == (2 * p) * found + (2 * x + p) % (2 * p),
                (2 * x + p) % (2 * p) >= 0,
                r > 0,
        ;
    }
}

/// A ratio that is doubled and rounded stays on its side of a quarter.
proof fn product_keeps_side(n: nat, den: nat, r: nat, quarters: nat)
    requires
        den > 0,
    ensures
        quarters * den <= 4 * n ==> quarters * r <= round_even(n * (4 * r), den),
        4 * n <= quarters * den ==> round_even(n * (4 * r), den) <= quarters * r,
{
    whole_quotient_stays(quarters * r, den);
    if quarters * den <= 4 * n {
        assert((quarters * r) * den <= n * (4 * r)) by (nonlinear_arith)
            requires
                quarters * den <= 4 * n,
        ;
        rounding_keeps_order((quarters * r) * den, n * (4 * r), den);
    }
    if 4 * n <= quarters * den {
        assert(n * (4 * r) <= (quarters * r) * den) by (nonlinear_arith)
            requires
                4 * n <= quarters * den,
        ;
        rounding_keeps_order(n * (4 * r), (quarters * r) * den, den);
    }
}

/// The numeral of a count of tenths, with one digit after the point.
pub open spec fn tenths_numeral(tenths: nat) -> Seq<char> {
    decimal(tenths / 10) + "."@ + seq![digit(tenths % 10)]
}

/// Writes a whole part and a count of tenths.
fn tenths_digits(whole: u128, tenth: u8) -> (text: String)
    requires
        tenth < 10,
    ensures
        text@ == decimal(whole as nat) + "."@ + seq![digit(tenth as nat)],
{
    let mut text = decimal_text(whole);
    text.append(".");
    text.push(digit_char(tenth));
    assert(text@ =~= decimal(whole as nat) + "."@ + seq![digit(tenth as nat)]);
    text
}

impl Binary32 {
    /// The number of units of 1/`parts` nearest to the absolute value, the even
    /// one on a tie.
    pub open spec fn nearest_parts(self, parts: nat) -> nat {
        round_even(self.magnitude() * parts, pow2(149))
    }

    /// The sign in front of a number.
    pub open spec fn sign_text(self) -> Seq<char> {
        if self.negative() {
            "-"@
        } else {
            Seq::empty()
        }
    }

    /// The number in decimal, rounded to a whole number.
    pub open spec fn text_rounded(self) -> Seq<char> {
        if self.nan() {
            "NaN"@
        } else if !self.finite() {
            self.sign_text() + "inf"@
        } else {
            self.sign_text() + decimal(self.nearest_parts(1))
        }
    }

    /// The number in decimal, with one digit after the point.
    pub open spec fn text_tenths(self) -> Seq<char> {
        if self.nan() {
            "NaN"@
        } else if !self.finite() {
            self.sign_text() + "inf"@
        } else {
            self.sign_text() + tenths_numeral(self.nearest_parts(10))
        }
    }

    /// Writes the sign, if there is one.
    fn write_sign(self) -> (text: String)
        ensures
            text@ == self.sign_text(),
    {
        if self.bits >= SIGN_BIT {
            "-".to_owned()
        } else {
            String::new()
        }
    }

    /// Rounds the absolute value to a whole number of units of 1/`parts`; where
    /// the value is a whole number, gives that number instead.
    fn rounded_parts(self, parts: u128) -> (rounded: (bool, u128))
        requires
            self.finite(),
            parts == 1 || parts == 10,
        ensures
            rounded.0 ==> self.nearest_parts(parts as nat) == rounded.1 * parts,
            !rounded.0 ==> self.nearest_parts(parts as nat) == rounded.1,
    {
        let field: u32 = (self.bits / HIDDEN_BIT) % 256;
        let fraction: u32 = self.bits % HIDDEN_BIT;
        let significand: u128 = if field == 0 {
            fraction as u128
        } else {
            (HIDDEN_BIT + fraction) as u128
        };
        let scale: u32 = if field == 0 {
            0
        } else {
            field - 1
        };
        assert(significand == self.significand() && scale == self.scale());
        assert(significand < 0x100_0000);
        if scale >= 149 {
            let factor: u128 = power_of_two(scale - 149);
            proof {
                power_split((scale - 149) as nat, 149);
                power_split((scale - 149) as nat, 24);
                vstd::arithmetic::power2::lemma2_to64();
                if scale < 253 {
                    vstd::arithmetic::power2::lemma_pow2_strictly_increases(
                        (scale - 149) as nat,
                        104,
                    );
                }
                power_104();
                assert(significand * factor < 0x1_0000_0000_0000_0000_0000_0000_0000_0000)
                    by (nonlinear_arith)
                    requires
                        significand < 0x100_0000,
                        0 < factor <= 0x100_0000_0000_0000_0000_0000_0000,
                ;
                let m = significand as nat;
                let f = factor as nat;
                let d = pow2(149);
                let n = parts as nat;
                assert((m * (f * d)) * n == (m * f * n) * d) by (nonlinear_arith);
                whole_quotient(m * f * n, d);
            }
            (true, significand * factor)
        } else {
            let depth: u32 = 149 - scale;
            proof {
                let rest = pow2(scale as nat);
                power_split((149 - scale) as nat, scale as nat);
                common_factor(significand as nat * parts as nat, pow2(depth as nat), rest);
                let m = significand as nat;
                let n = parts as nat;
                assert((m * n) * rest == (m * rest) * n) by (nonlinear_arith);
            }
            if depth >= 64 {
                proof {
                    vstd::arithmetic::power2::lemma2_to64();
                    if depth > 64 {
                        vstd::arithmetic::power2::lemma_pow2_strictly_increases(64, depth as nat);
                    }
                    let n = significand as nat * parts as nat;
                    vstd::arithmetic::div_mod::lemma_fundamental_div_mod_converse(
                        n as int,
                        pow2(depth as nat) as int,
                        0,
                        n as int,
                    );
                }
                (false, 0)
            } else {
                let den: u128 = power_of_two(depth);
                proof {
                    power_fits(depth as nat);
                    vstd::arithmetic::power2::lemma_pow2_pos(depth as nat);
                }
                (false, rounded_even(significand * parts, den))
            }
        }
    }

    /// Writes the number rounded to a whole number.
    pub fn rounded_text(self) -> (text: String)
        ensures
            text@ == self.text_rounded(),
    {
        if self.is_nan() {
            return "NaN".to_owned();
        }
        let mut text = self.write_sign();
        if !self.is_finite() {
            text.append("inf");
            return text;
        }
        let (_, count) = self.rounded_parts(1);
        let numeral = decimal_text(count);
        text.append(numeral.as_str());
        text
    }

    /// Writes the number with one digit after the point.
    pub fn tenths_text(self) -> (text: String)
        ensures
            text@ == self.text_tenths(),
    {
        if self.is_nan() {
            return "NaN".to_owned();
        }
        let mut text = self.write_sign();
        if !self.is_finite() {
            text.append("inf");
            return text;
        }
        let (whole, count) = self.rounded_parts(10);
        let numeral = if whole {
            tenths_digits(count, 0)
        } else {
            tenths_digits(count / 10, (count % 10) as u8)
        };
        text.append(numeral.as_str());
        text
    }
}

proof fn power_104()
    ensures
        pow2(104) == 0x100_0000_0000_0000_0000_0000_0000,
{
    power_96();
    vstd::arithmetic::power2::lemma2_to64();
    vstd::arithmetic::power2::lemma_pow2_adds(8, 96);
    let low = pow2(8);
    let high = pow2(96);
    assert(low * high == 0x100_0000_0000_0000_0000_0000_0000) by (nonlinear_arith)
        requires
            low == 0x100,
            high == 0x1_0000_0000_0000_0000_0000_0000,
    ;
}

proof fn whole_quotient(count: nat, den: nat)
    requires
        den > 0,
    ensures
        round_even(count * den, den) == count,
{
    vstd::arithmetic::div_mod::lemma_fundamental_div_mod_converse(
        (count * den) as int,
        den as int,
        count as int,
        0,
    );
}

/// A count of tenths nearest to a single-precision ratio.
pub open spec fn tenths_of(value: (nat, int)) -> nat {
    round_even(ratio_num(value) * 10, ratio_den(value))
}

/// A whole number of milliseconds in seconds, in single precision.
pub open spec fn seconds_of_millis(millis: nat) -> (nat, int) {
    let count = nearest(millis, 1);
    nearest(ratio_num(count), ratio_den(count) * 1000)
}

/// Writes a whole number of milliseconds in seconds, with one digit after the
/// point.
pub fn millis_text(millis: u64) -> (text: String)
    ensures
        text@ == tenths_numeral(tenths_of(seconds_of_millis(millis as nat))),
{
    if millis == 0 {
        proof {
            zero_seconds();
        }
        return tenths_digits(0, 0);
    }
    proof {
        shift_bounds(millis as nat, 1);
        vstd::arithmetic::power2::lemma2_to64();
    }
    let (digits, shift) = nearest_single(millis as u128, 1);
    let ghost count = nearest(millis as nat, 1);
    proof {
        significand_stays(millis as nat, 1);
    }
    let (num, den): (u128, u128) = if shift >= 0 {
        let d: u128 = power_of_two(shift as u32);
        proof {
            let p = pow2(shift as nat);
            if shift > 0 {
                assert(p < 0x100_0000) by (nonlinear_arith)
                    requires
                        millis * p < 1 * 0x100_0000,
                        millis >= 1,
                ;
            }
            vstd::arithmetic::power2::lemma_pow2_pos(shift as nat);
        }
        (digits, d * 1000)
    } else {
        let f: u128 = power_of_two((-shift) as u32);
        proof {
            vstd::arithmetic::power2::lemma_pow2_pos((-shift) as nat);
            assert(f * 0x80_0000 <= millis);
            assert(digits * f <= 0x100_0000 * 0x200_0000_0000) by (nonlinear_arith)
                requires
                    digits <= 0x100_0000,
                    0 < f <= 0x200_0000_0000,
            ;
            assert(digits * f > 0) by (nonlinear_arith)
                requires
                    digits > 0,
                    f > 0,
            ;
        }
        (digits * f, 1000)
    };
    assert(num == ratio_num(count) && den == ratio_den(count) * 1000);
    write_tenths(num, den)
}

proof fn zero_seconds()
    ensures
        seconds_of_millis(0) == (0nat, 0int),
        tenths_of((0nat, 0int)) == 0,
{
    assert(nearest(0, 1) == (0nat, 0int));
    assert(pow2(0) == 1) by {
        vstd::arithmetic::power2::lemma2_to64();
    }
    assert(nearest(0, 1000) == (0nat, 0int));
}

/// Rounding a positive ratio to single precision keeps it positive.
proof fn significand_stays(num: nat, den: nat)
    requires
        num > 0,
        den > 0,
    ensures
        nearest(num, den).0 >= 0x80_0000,
{
    shift_bounds(num, den);
    let shift = shift_of(num, den);
    if shift >= 0 {
        if shift == 0 {
            assert(pow2(0) == 1) by {
                vstd::arithmetic::power2::lemma2_to64();
            }
            assert(num * pow2(0) == num) by (nonlinear_arith)
                requires
                    pow2(0) == 1,
            ;
        }
        quotient_at_least(num * pow2(shift as nat), den);
    } else {
        vstd::arithmetic::power2::lemma_pow2_pos((-shift) as nat);
        let d = den * pow2((-shift) as nat);
        assert(d > 0) by (nonlinear_arith)
            requires
                den > 0,
                pow2((-shift) as nat) > 0,
                d == den * pow2((-shift) as nat),
        ;
        quotient_at_least(num, d);
    }
}

proof fn quotient_at_least(num: nat, den: nat)
    requires
        den > 0,
        num >= den * 0x80_0000,
    ensures
        round_even(num, den) >= 0x80_0000,
{
    vstd::arithmetic::div_mod::lemma_fundamental_div_mod(num as int, den as int);
    let q = num / den;
    assert(q >= 0x80_0000) by (nonlinear_arith)
        requires
            num >= den * 0x80_0000,
            num == den * q + num % den,
            num % den < den,
            den > 0,
    ;
}

/// Rounds a ratio to single precision and writes it with one digit after the
/// point.
fn write_tenths(num: u128, den: u128) -> (text: String)
    requires
        0 < den <= 0x1_0000_0000_0000_0000_0000_0000,
        num <= 0x1_0000_0000_0000_0000_0000_0000,
    ensures
        text@ == tenths_numeral(tenths_of(nearest(num as nat, den as nat))),
{
    let (digits, shift) = nearest_single(num, den);
    let ghost single = nearest(num as nat, den as nat);
    if shift >= 0 {
        let unit: u128 = power_of_two(shift as u32);
        proof {
            power_fits(shift as nat);
            vstd::arithmetic::power2::lemma_pow2_pos(shift as nat);
        }
        let tenths: u128 = rounded_even(digits * 10, unit);
        tenths_digits(tenths / 10, (tenths % 10) as u8)
    } else {
        let factor: u128 = power_of_two((-shift) as u32);
        proof {
            if num > 0 {
                shift_bounds(num as nat, den as nat);
            }
            let f = factor as nat;
            let d = den as nat;
            assert(f * 0x80_0000 <= num) by (nonlinear_arith)
                requires
                    (d * f) * 0x80_0000 <= num,
                    d >= 1,
            ;
            assert(digits * factor <= 0x100_0000 * 0x1_0000_0000_0000_0000_0000_0000)
                by (nonlinear_arith)
                requires
                    digits <= 0x100_0000,
                    factor <= 0x1_0000_0000_0000_0000_0000_0000,
            ;
            let whole = digits as nat * f;
            assert(round_even(whole * 10, 1) == whole * 10) by {
                whole_quotient(whole * 10, 1);
                assert((whole * 10) * 1 == whole * 10);
            }
        }
        tenths_digits(digits * factor, 0)
    }
}

/// A count of nanoseconds as a fraction of a second, in single precision.
pub open spec fn seconds_of_nanos(nanos: nat) -> (nat, int) {
    let count = nearest(nanos, 1);
    nearest(ratio_num(count), ratio_den(count) * 1_000_000_000)
}

/// Whole seconds and nanoseconds in seconds, in single precision.
pub open spec fn seconds_with_nanos(secs: nat, nanos: nat) -> (nat, int) {
    let part = seconds_of_nanos(nanos);
    nearest(secs * ratio_den(part) + ratio_num(part), ratio_den(part))
}

/// Without nanoseconds the whole seconds are left.
proof fn no_nanoseconds(secs: nat)
    ensures
        seconds_with_nanos(secs, 0) == nearest(secs, 1),
{
    assert(pow2(0) == 1) by {
        vstd::arithmetic::power2::lemma2_to64();
    }
    let zero = (0nat, 0int);
    assert(nearest(0, 1) == zero);
    assert(ratio_num(zero) == 0);
    assert(ratio_den(zero) == 1);
    assert(nearest(0, 1_000_000_000) == zero);
    assert(seconds_of_nanos(0) == zero);
    assert(secs * ratio_den(zero) + ratio_num(zero) == secs) by (nonlinear_arith)
        requires
            ratio_den(zero) == 1,
            ratio_num(zero) == 0,
    ;
}

/// Writes less than a minute in seconds, with one digit after the point.
pub fn seconds_text(secs: u64, nanos: u32) -> (text: String)
    requires
        secs < 60,
        nanos < 1_000_000_000,
    ensures
        text@ == tenths_numeral(tenths_of(seconds_with_nanos(secs as nat, nanos as nat))),
{
    proof {
        vstd::arithmetic::power2::lemma2_to64();
    }
    if nanos == 0 {
        proof {
            no_nanoseconds(secs as nat);
        }
        return write_tenths(secs as u128, 1);
    }
    proof {
        shift_bounds(nanos as nat, 1);
        significand_stays(nanos as nat, 1);
    }
    let (digits, shift) = nearest_single(nanos as u128, 1);
    let ghost count = nearest(nanos as nat, 1);
    let (num, den): (u128, u128) = if shift >= 0 {
        let d: u128 = power_of_two(shift as u32);
        proof {
            let p = pow2(shift as nat);
            if shift > 0 {
                assert(p < 0x100_0000) by (nonlinear_arith)
                    requires
                        nanos * p < 1 * 0x100_0000,
                        nanos >= 1,
                ;
            }
            vstd::arithmetic::power2::lemma_pow2_pos(shift as nat);
        }
        (digits, d * 1_000_000_000)
    } else {
        let f: u128 = power_of_two((-shift) as u32);
        proof {
            vstd::arithmetic::power2::lemma_pow2_pos((-shift) as nat);
            assert(f * 0x80_0000 <= nanos);
            assert(digits * f <= 0x100_0000 * 0x80) by (nonlinear_arith)
                requires
                    digits <= 0x100_0000,
                    0 < f <= 0x80,
            ;
            assert(digits * f >= digits) by (nonlinear_arith)
                requires
                    f >= 1,
            ;
        }
        (digits * f, 1_000_000_000)
    };
    assert(num == ratio_num(count) && den == ratio_den(count) * 1_000_000_000);
    proof {
        shift_bounds(num as nat, den as nat);
    }
    let (part, depth) = nearest_single(num, den);
    let unit: u128 = power_of_two(depth as u32);
    proof {
        let p = pow2(depth as nat);
        vstd::arithmetic::power2::lemma_pow2_pos(depth as nat);
        assert(p <= den * 0x100_0000) by (nonlinear_arith)
            requires
                num * p < den * 0x100_0000,
                num >= 1,
        ;
        assert(secs * p <= 60 * p) by (nonlinear_arith)
            requires
                secs < 60,
        ;
    }
    write_tenths(secs as u128 * unit + part, unit)
}

} // verus!
