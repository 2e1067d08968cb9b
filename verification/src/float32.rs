//! Single-precision numbers of the wire format, held as bit patterns.
//!
//! Every quadlet coefficient of the command protocol is an IEEE 754 binary32
//! number. The type of this module keeps the 32 bits as they are, so that a
//! coefficient survives decoding and encoding unchanged, and converts between
//! bit patterns and integers by integer arithmetic alone.

use vstd::prelude::*;
use vstd::arithmetic::power2::{pow2, lemma_pow2_adds, lemma_pow2_pos, lemma2_to64, lemma_pow2_unfold};
use vstd::arithmetic::div_mod::{lemma_div_multiples_vanish, lemma_fundamental_div_mod};
use vstd::arithmetic::mul::{lemma_mul_is_associative, lemma_mul_is_commutative, lemma_mul_inequality, lemma_mul_strict_inequality};
use vstd::bits::{lemma_u64_shl_is_mul, lemma_u64_shr_is_div};

verus! {

/// Bit of the sign in a pattern.
pub const SIGN_BIT: u32 = 0x8000_0000;

/// Weight of the lowest bit of the exponent field; the fraction field lies below it.
pub const EXPONENT_UNIT: u32 = 0x0080_0000;

/// An IEEE 754 binary32 number, identified with its bit pattern.
#[derive(Clone, Copy, Debug, PartialEq, Eq, Structural, Hash)]
pub struct Float32 {
    pub bits: u32,
}

/// Count of binary digits of `a`: the least `n` with `a < 2^n`.
pub open spec fn bit_length(a: nat) -> nat
    decreases a,
{
    if a == 0 {
        0
    } else {
        1 + bit_length(a / 2)
    }
}

/// Pattern, without sign, of the binary32 number nearest to the integer `a`,
/// ties going to the even significand.
#[verifier::opaque]
pub open spec fn nearest_pattern(a: nat) -> nat {
    let n = bit_length(a);
    if a == 0 {
        0
    } else if n <= 24 {
        ((n + 126) * 0x80_0000 + (a * pow2((24 - n) as nat) - 0x80_0000)) as nat
    } else {
        let unit = pow2((n - 24) as nat);
        let q = a / unit;
        let r = a % unit;
        let up: nat = if 2 * r > unit || (2 * r == unit && q % 2 == 1) {
            1
        } else {
            0
        };
        ((n + 126) * 0x80_0000 + (q + up - 0x80_0000)) as nat
    }
}

/// The four bytes of a quadlet, least significant first, as one number.
#[verifier::opaque]
pub open spec fn le_quadlet(raw: Seq<u8>) -> nat {
    (raw[0] as nat) + 0x100 * (raw[1] as nat) + 0x1_0000 * (raw[2] as nat) + 0x100_0000 * (
    raw[3] as nat)
}

/// The number `bits` as four bytes, least significant first.
#[verifier::opaque]
pub open spec fn le_bytes(bits: u32) -> Seq<u8> {
    seq![
        (bits % 0x100) as u8,
        ((bits / 0x100) % 0x100) as u8,
        ((bits / 0x1_0000) % 0x100) as u8,
        (bits / 0x100_0000) as u8,
    ]
}

impl Float32 {
    pub open spec fn negative(self) -> bool {
        self.bits >= SIGN_BIT
    }

    /// The exponent field, biased by 127.
    pub open spec fn exponent(self) -> nat {
        ((self.bits / EXPONENT_UNIT) % 256) as nat
    }

    pub open spec fn fraction(self) -> nat {
        (self.bits % EXPONENT_UNIT) as nat
    }

    pub open spec fn is_nan(self) -> bool {
        self.exponent() == 255 && self.fraction() != 0
    }

    pub open spec fn is_infinite(self) -> bool {
        self.exponent() == 255 && self.fraction() == 0
    }

    /// The significand as an integer: the number's magnitude is
    /// `significand * 2^(scale - 150)`.
    pub open spec fn significand(self) -> nat {
        if self.exponent() == 0 {
            self.fraction()
        } else {
            0x80_0000 + self.fraction()
        }
    }

    pub open spec fn scale(self) -> nat {
        if self.exponent() == 0 {
            1
        } else {
            self.exponent()
        }
    }

    /// Integral part of the magnitude of a finite number.
    #[verifier::opaque]
    pub open spec fn magnitude_floor(self) -> nat {
        (self.significand() * pow2(self.scale())) / pow2(150)
    }

    /// The integral part of the magnitude, or `2^32` where it is not below that.
    pub open spec fn clamped_magnitude(self) -> nat {
        if self.is_infinite() || self.magnitude_floor() >= 0x1_0000_0000 {
            0x1_0000_0000
        } else {
            self.magnitude_floor()
        }
    }

    /// The number rounded toward zero and saturated to the signed 32-bit
    /// range; zero for a NaN.
    pub open spec fn spec_to_i32(self) -> i32 {
        if self.is_nan() {
            0i32
        } else if self.negative() {
            if self.clamped_magnitude() >= 0x8000_0000 {
                i32::MIN
            } else {
                (0 - self.clamped_magnitude()) as i32
            }
        } else {
            if self.clamped_magnitude() >= 0x8000_0000 {
                i32::MAX
            } else {
                self.clamped_magnitude() as i32
            }
        }
    }

    /// The number rounded toward zero and saturated to the unsigned 32-bit
    /// range; zero for a NaN.
    pub open spec fn spec_to_u32(self) -> u32 {
        if self.is_nan() || self.negative() {
            0u32
        } else if self.clamped_magnitude() >= 0x1_0000_0000 {
            u32::MAX
        } else {
            self.clamped_magnitude() as u32
        }
    }

    /// The number nearest to `v`.
    pub open spec fn spec_from_u32(v: u32) -> Float32 {
        Float32 { bits: nearest_pattern(v as nat) as u32 }
    }

    /// The number nearest to `v`.
    pub open spec fn spec_from_i32(v: i32) -> Float32 {
        if v < 0 {
            Float32 { bits: (SIGN_BIT + nearest_pattern((0 - v) as nat)) as u32 }
        } else {
            Float32 { bits: nearest_pattern(v as nat) as u32 }
        }
    }

    pub open spec fn spec_from_le_bytes(raw: Seq<u8>) -> Float32 {
        Float32 { bits: le_quadlet(raw) as u32 }
    }

    pub open spec fn spec_to_le_bytes(self) -> Seq<u8> {
        le_bytes(self.bits)
    }

    pub fn from_bits(bits: u32) -> (f: Float32)
        ensures
            f.bits == bits,
    {
        Float32 { bits }
    }

    pub fn to_bits(self) -> (bits: u32)
        ensures
            bits == self.bits,
    {
        self.bits
    }

    /// Reads a number from the four bytes of a quadlet coefficient.
    pub fn from_le_bytes(raw: &[u8]) -> (f: Float32)
        requires
            raw@.len() == 4,
        ensures
            f == Float32::spec_from_le_bytes(raw@),
    {
        proof {
            reveal(le_quadlet);
        }
        let b0: u32 = raw[0] as u32;
        let b1: u32 = raw[1] as u32;
        let b2: u32 = raw[2] as u32;
        let b3: u32 = raw[3] as u32;
        Float32 { bits: b0 + 0x100 * b1 + 0x1_0000 * b2 + 0x100_0000 * b3 }
    }

    /// Appends the four bytes of the number to `raw`.
    pub fn append_le_bytes(self, raw: &mut Vec<u8>)
        ensures
            final(raw)@ == old(raw)@ + self.spec_to_le_bytes(),
    {
        proof {
            reveal(le_bytes);
        }
        let bits = self.bits;
        raw.push((bits % 0x100) as u8);
        raw.push(((bits / 0x100) % 0x100) as u8);
        raw.push(((bits / 0x1_0000) % 0x100) as u8);
        raw.push((bits / 0x100_0000) as u8);
        assert(raw@ =~= old(raw)@ + self.spec_to_le_bytes());
    }

    fn magnitude(self) -> (m: u64)
        requires
            !self.is_nan(),
        ensures
            m == self.clamped_magnitude(),
    {
        let exponent: u32 = (self.bits / EXPONENT_UNIT) % 256;
        let fraction: u32 = self.bits % EXPONENT_UNIT;
        let significand: u64 = 0x80_0000u64 + (fraction as u64);
        if exponent == 255 {
            0x1_0000_0000
        } else if exponent < 127 {
            proof {
                lemma_small_magnitude(self);
            }
            0
        } else if exponent >= 159 {
            proof {
                lemma_large_magnitude(self);
            }
            0x1_0000_0000
        } else if exponent >= 150 {
            let shift: u64 = (exponent - 150) as u64;
            proof {
                lemma_integral_magnitude(self);
                lemma2_to64();
                lemma_pow2_monotone(shift as nat, 8);
                lemma_mul_inequality(
                    pow2(shift as nat) as int,
                    pow2(8) as int,
                    significand as int,
                );
                lemma_mul_is_commutative(significand as int, pow2(shift as nat) as int);
                lemma_mul_is_commutative(significand as int, pow2(8) as int);
                lemma_u64_shl_is_mul(significand, shift);
                assert(significand * pow2(8) < 0x1_0000_0000);
            }
            significand << shift
        } else {
            let shift: u64 = (150 - exponent) as u64;
            proof {
                lemma_fractional_magnitude(self);
                lemma_u64_shr_is_div(significand, shift);
                lemma_pow2_pos(shift as nat);
                vstd::arithmetic::div_mod::lemma_div_nonincreasing(
                    significand as int,
                    pow2(shift as nat) as int,
                );
            }
            significand >> shift
        }
    }

    /// Converts as a cast of a floating-point number to `i32` does: toward
    /// zero, saturating, a NaN to zero.
    pub fn to_i32(self) -> (v: i32)
        ensures
            v == self.spec_to_i32(),
    {
        let exponent: u32 = (self.bits / EXPONENT_UNIT) % 256;
        let fraction: u32 = self.bits % EXPONENT_UNIT;
        if exponent == 255 && fraction != 0 {
            return 0;
        }
        let m = self.magnitude();
        if self.bits >= SIGN_BIT {
            if m >= 0x8000_0000 {
                i32::MIN
            } else {
                0 - (m as i32)
            }
        } else {
            if m >= 0x8000_0000 {
                i32::MAX
            } else {
                m as i32
            }
        }
    }

    /// Converts as a cast of a floating-point number to `u32` does: toward
    /// zero, saturating, a NaN to zero.
    pub fn to_u32(self) -> (v: u32)
        ensures
            v == self.spec_to_u32(),
    {
        let exponent: u32 = (self.bits / EXPONENT_UNIT) % 256;
        let fraction: u32 = self.bits % EXPONENT_UNIT;
        if (exponent == 255 && fraction != 0) || self.bits >= SIGN_BIT {
            return 0;
        }
        let m = self.magnitude();
        if m >= 0x1_0000_0000 {
            u32::MAX
        } else {
            m as u32
        }
    }

    /// Converts as a cast of `u32` to a floating-point number does: to the
    /// nearest number, ties to even.
    pub fn from_u32(v: u32) -> (f: Float32)
        ensures
            f == Float32::spec_from_u32(v),
    {
        Float32 { bits: encode_magnitude(v) }
    }

    /// Converts as a cast of `i32` to a floating-point number does: to the
    /// nearest number, ties to even.
    pub fn from_i32(v: i32) -> (f: Float32)
        ensures
            f == Float32::spec_from_i32(v),
    {
        if v < 0 {
            let a: u32 = if v == i32::MIN {
                0x8000_0000
            } else {
                (0 - v) as u32
            };
            Float32 { bits: SIGN_BIT + encode_magnitude(a) }
        } else {
            Float32 { bits: encode_magnitude(v as u32) }
        }
    }
}

impl Default for Float32 {
    /// Positive zero.
    fn default() -> (f: Float32)
        ensures
            f.bits == 0,
    {
        Float32 { bits: 0 }
    }
}

fn count_bits(a: u32) -> (n: u32)
    ensures
        n == bit_length(a as nat),
        n <= 32,
        a > 0 ==> pow2((n - 1) as nat) <= a < pow2(n as nat),
{
    let mut n: u32 = 0;
    let mut x: u32 = a;
    proof {
        lemma_bit_length_bounds(a as nat);
        lemma2_to64();
        if bit_length(a as nat) > 32 {
            lemma_pow2_monotone(32, (bit_length(a as nat) - 1) as nat);
        }
    }
    while x > 0
        invariant
            bit_length(a as nat) == n + bit_length(x as nat),
            bit_length(a as nat) <= 32,
        decreases x,
    {
        x = x / 2;
        n = n + 1;
    }
    n
}

fn encode_magnitude(a: u32) -> (bits: u32)
    ensures
        bits == nearest_pattern(a as nat),
        bits < SIGN_BIT,
{
    proof {
        reveal(nearest_pattern);
    }
    if a == 0 {
        return 0;
    }
    let n = count_bits(a);
    proof {
        lemma2_to64();
    }
    if n <= 24 {
        let shift: u64 = (24 - n) as u64;
        proof {
            lemma_pow2_adds((n - 1) as nat, shift as nat);
            lemma_pow2_adds(n as nat, shift as nat);
            lemma_pow2_pos(shift as nat);
            lemma_mul_inequality(
                pow2((n - 1) as nat) as int,
                a as int,
                pow2(shift as nat) as int,
            );
            lemma_mul_strict_inequality(
                a as int,
                pow2(n as nat) as int,
                pow2(shift as nat) as int,
            );
            lemma_u64_shl_is_mul(a as u64, shift);
        }
        let significand: u64 = (a as u64) << shift;
        ((n + 126) * EXPONENT_UNIT) + ((significand - 0x80_0000) as u32)
    } else {
        let shift: u64 = (n - 24) as u64;
        proof {
            lemma_pow2_monotone(shift as nat, 8);
            lemma_pow2_pos(shift as nat);
            lemma_pow2_adds(23, shift as nat);
            lemma_pow2_adds(24, shift as nat);
            lemma_pow2_unfold(shift as nat);
            lemma_u64_shl_is_mul(1u64, shift);
            lemma_quotient_range(a as nat, pow2(shift as nat));
        }
        let unit: u64 = 1u64 << shift;
        let q: u64 = (a as u64) / unit;
        let r: u64 = (a as u64) % unit;
        let up: u64 = if 2 * r > unit || (2 * r == unit && q % 2 == 1) {
            1
        } else {
            0
        };
        ((n + 126) * EXPONENT_UNIT) + ((q + up - 0x80_0000) as u32)
    }
}

proof fn lemma_pow2_monotone(e1: nat, e2: nat)
    requires
        e1 <= e2,
    ensures
        pow2(e1) <= pow2(e2),
        pow2(e1) > 0,
{
    lemma_pow2_pos(e1);
    if e1 < e2 {
        vstd::arithmetic::power2::lemma_pow2_strictly_increases(e1, e2);
    }
}

/// With `unit * 2^23 <= a < unit * 2^24`, the quotient of `a` by `unit` has 24 digits.
proof fn lemma_quotient_range(a: nat, unit: nat)
    requires
        unit > 0,
        0x80_0000 * unit <= a < 0x100_0000 * unit,
    ensures
        0x80_0000 <= a / unit < 0x100_0000,
        a % unit < unit,
{
    lemma_fundamental_div_mod(a as int, unit as int);
    assert(0x80_0000 <= a / unit < 0x100_0000) by (nonlinear_arith)
        requires
            unit > 0,
            0x80_0000 * unit <= a < 0x100_0000 * unit,
            a == unit * (a / unit) + a % unit,
            0 <= a % unit < unit,
    ;
}

pub proof fn lemma_bit_length_bounds(a: nat)
    ensures
        a < pow2(bit_length(a)),
        a > 0 ==> pow2((bit_length(a) - 1) as nat) <= a,
    decreases a,
{
    lemma2_to64();
    if a > 0 {
        lemma_bit_length_bounds(a / 2);
        lemma_pow2_unfold(bit_length(a));
        if a / 2 > 0 {
            lemma_pow2_unfold((bit_length(a) - 1) as nat);
        }
    }
}

proof fn lemma_fields(f: Float32)
    ensures
        f.exponent() < 256,
        f.fraction() < 0x80_0000,
        f.significand() < 0x100_0000,
        f.exponent() > 0 ==> f.significand() >= 0x80_0000,
{
}

proof fn lemma_small_magnitude(f: Float32)
    requires
        f.exponent() < 127,
    ensures
        f.magnitude_floor() == 0,
{
    reveal(Float32::magnitude_floor);
    lemma_fields(f);
    lemma2_to64();
    lemma_pow2_monotone(f.scale(), 126);
    lemma_pow2_adds(24, 126);
    let s = f.significand();
    let p = pow2(f.scale());
    assert(s * p < pow2(150)) by (nonlinear_arith)
        requires
            s < 0x100_0000,
            0 < p <= pow2(126),
            0x100_0000 * pow2(126) == pow2(150),
    ;
    vstd::arithmetic::div_mod::lemma_basic_div(s as int * p as int, pow2(150) as int);
}

proof fn lemma_large_magnitude(f: Float32)
    requires
        159 <= f.exponent(),
    ensures
        f.magnitude_floor() >= 0x1_0000_0000,
{
    reveal(Float32::magnitude_floor);
    lemma_fields(f);
    lemma2_to64();
    lemma_pow2_monotone(159, f.scale());
    lemma_pow2_adds(9, 150);
    lemma_pow2_pos(150);
    let s = f.significand();
    let p = pow2(f.scale());
    let d = pow2(150);
    assert(s * p >= 0x1_0000_0000 * d) by (nonlinear_arith)
        requires
            s >= 0x80_0000,
            p >= 0x200 * d,
            d > 0,
    ;
    vstd::arithmetic::div_mod::lemma_div_is_ordered(
        0x1_0000_0000 * d as int,
        s as int * p as int,
        d as int,
    );
    lemma_div_multiples_vanish(0x1_0000_0000, d as int);
    lemma_mul_is_commutative(0x1_0000_0000, d as int);
}

proof fn lemma_integral_magnitude(f: Float32)
    requires
        150 <= f.exponent(),
    ensures
        f.magnitude_floor() == f.significand() * pow2((f.exponent() - 150) as nat),
{
    reveal(Float32::magnitude_floor);
    let e = (f.exponent() - 150) as nat;
    let s = f.significand();
    let d = pow2(150);
    lemma_pow2_adds(e, 150);
    lemma_pow2_pos(150);
    lemma_mul_is_associative(s as int, pow2(e) as int, d as int);
    lemma_div_multiples_vanish(s as int * pow2(e) as int, d as int);
    lemma_mul_is_commutative(s as int * pow2(e) as int, d as int);
}

proof fn lemma_fractional_magnitude(f: Float32)
    requires
        0 < f.exponent() < 150,
    ensures
        f.magnitude_floor() == f.significand() / pow2((150 - f.exponent()) as nat),
{
    reveal(Float32::magnitude_floor);
    let e = f.exponent();
    let k = (150 - e) as nat;
    let s = f.significand();
    lemma_pow2_adds(e, k);
    lemma_pow2_pos(e);
    lemma_pow2_pos(k);
    vstd::arithmetic::div_mod::lemma_div_multiples_vanish_quotient(
        pow2(e) as int,
        s as int,
        pow2(k) as int,
    );
    lemma_mul_is_commutative(s as int, pow2(e) as int);
}

/// The nearest number to an integer of at most 24 binary digits, or to
/// `2^24`, is the integer itself: its pattern is finite and its integral part
/// is `a`.
pub proof fn lemma_nearest_is_exact(a: nat)
    requires
        a <= 0x100_0000,
    ensures
        nearest_pattern(a) < SIGN_BIT,
        !(Float32 { bits: nearest_pattern(a) as u32 }).is_nan(),
        !(Float32 { bits: nearest_pattern(a) as u32 }).is_infinite(),
        (Float32 { bits: nearest_pattern(a) as u32 }).magnitude_floor() == a,
{
    reveal(nearest_pattern);
    reveal(Float32::magnitude_floor);
    lemma2_to64();
    let n = bit_length(a);
    let f = Float32 { bits: nearest_pattern(a) as u32 };
    lemma_bit_length_bounds(a);
    if a == 0 {
        assert(f.bits == 0);
        lemma_small_magnitude(f);
    } else {
        if n >= 26 {
            lemma_pow2_monotone(25, (n - 1) as nat);
        }
        if n <= 24 {
            let k = (24 - n) as nat;
            let sig = a * pow2(k);
            lemma_pow2_adds((n - 1) as nat, k);
            lemma_pow2_adds(n, k);
            lemma_pow2_pos(k);
            lemma_mul_inequality(pow2((n - 1) as nat) as int, a as int, pow2(k) as int);
            lemma_mul_strict_inequality(a as int, pow2(n) as int, pow2(k) as int);
            assert(0x80_0000 <= sig < 0x100_0000);
            assert(nearest_pattern(a) == (n + 126) * 0x80_0000 + (sig - 0x80_0000));
            assert(f.exponent() == n + 126);
            assert(f.fraction() == sig - 0x80_0000);
            assert(f.significand() == sig);
            lemma_pow2_adds(k, n + 126);
            lemma_pow2_pos(150);
            lemma_mul_is_associative(a as int, pow2(k) as int, pow2(n + 126) as int);
            lemma_div_multiples_vanish(a as int, pow2(150) as int);
            lemma_mul_is_commutative(a as int, pow2(150) as int);
        } else {
            assert(n == 25);
            assert(a == 0x100_0000);
            assert(pow2(1) == 2);
            assert(nearest_pattern(a) == 151 * 0x80_0000);
            assert(f.exponent() == 151);
            assert(f.fraction() == 0);
            lemma_integral_magnitude(f);
            assert((f.exponent() - 150) as nat == 1);
            assert(f.significand() == 0x80_0000);
            assert(f.magnitude_floor() == 0x80_0000 * pow2(1));
        }
    }
}

/// An integer of magnitude up to `2^24` survives the conversion to the
/// nearest number and back.
pub proof fn lemma_i32_round_trip(v: i32)
    requires
        -0x100_0000 <= v <= 0x100_0000,
    ensures
        Float32::spec_from_i32(v).spec_to_i32() == v,
{
    reveal(Float32::magnitude_floor);
    if v < 0 {
        lemma_nearest_is_exact((0 - v) as nat);
        let p = nearest_pattern((0 - v) as nat);
        let f = Float32 { bits: p as u32 };
        let g = Float32::spec_from_i32(v);
        assert(g.bits == SIGN_BIT + p);
        assert(g.exponent() == f.exponent());
        assert(g.fraction() == f.fraction());
    } else {
        lemma_nearest_is_exact(v as nat);
    }
}

/// An integer up to `2^24` survives the conversion to the nearest number and
/// back.
pub proof fn lemma_u32_round_trip(v: u32)
    requires
        v <= 0x100_0000,
    ensures
        Float32::spec_from_u32(v).spec_to_u32() == v,
{
    lemma_nearest_is_exact(v as nat);
}

/// A number written as four bytes and read again is the same number.
pub proof fn lemma_bytes_then_quadlet(bits: u32)
    ensures
        le_bytes(bits).len() == 4,
        le_quadlet(le_bytes(bits)) == bits,
{
    reveal(le_bytes);
    reveal(le_quadlet);
    let q1 = bits / 0x100;
    let q2 = bits / 0x1_0000;
    let q3 = bits / 0x100_0000;
    assert(bits == 0x100 * q1 + bits % 0x100);
    assert(q2 == q1 / 0x100);
    assert(q1 == 0x100 * q2 + q1 % 0x100);
    assert(q3 == q2 / 0x100);
    assert(q2 == 0x100 * q3 + q2 % 0x100);
}

/// Four bytes read as a number and written again are the same four bytes.
pub proof fn lemma_quadlet_then_bytes(raw: Seq<u8>)
    requires
        raw.len() == 4,
    ensures
        le_quadlet(raw) <= u32::MAX,
        le_bytes(le_quadlet(raw) as u32) == raw,
{
    reveal(le_bytes);
    reveal(le_quadlet);
    let b0 = raw[0] as nat;
    let b1 = raw[1] as nat;
    let b2 = raw[2] as nat;
    let b3 = raw[3] as nat;
    let bits = le_quadlet(raw);
    assert(bits == b0 + 0x100 * (b1 + 0x100 * (b2 + 0x100 * b3)));
    assert(bits % 0x100 == b0);
    assert(bits / 0x100 == b1 + 0x100 * (b2 + 0x100 * b3));
    assert((bits / 0x100) % 0x100 == b1);
    assert(bits / 0x1_0000 == b2 + 0x100 * b3);
    assert((bits / 0x1_0000) % 0x100 == b2);
    assert(bits / 0x100_0000 == b3);
    assert(le_bytes(bits as u32) =~= raw);
}

} // verus!
