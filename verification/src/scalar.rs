//! Single-precision numbers held by their IEEE-754 bit patterns.
//!
//! The simulation carries every real quantity (positions, velocities, masses,
//! softening) as the 32-bit pattern of a binary32 number. Nothing here does
//! arithmetic on those numbers; what the rest of the crate needs is to classify
//! a pattern (finite, zero, sign) and to order two of them, and to know that
//! the answers agree with the numbers the patterns stand for.
//!
//! A pattern is `sign | exponent (8 bits) | fraction (23 bits)`. For a finite
//! pattern the number it denotes is `value() / 2^149`; since that scale is the
//! same for every pattern, sign, zero-ness and order can be read off `value()`.

use vstd::prelude::*;
use vstd::arithmetic::power2::{pow2, lemma_pow2_pos, lemma_pow2_strictly_increases, lemma_pow2_unfold};

verus! {

/// Number of distinct fraction fields, `2^23`.
pub const FRACTION_SPAN: u32 = 0x0080_0000;

/// Number of distinct patterns with a clear sign bit, `2^31`.
pub const SIGN_SPAN: u32 = 0x8000_0000;

/// A binary32 number, identified by its bit pattern.
///
/// Equality is equality of patterns: `+0` and `-0` are different scalars, and a
/// NaN equals itself.
#[derive(Clone, Copy, Debug, PartialEq, Eq, Structural)]
pub struct Scalar {
    pub bits: u32,
}

impl Scalar {
    /// The sign bit is set.
    pub open spec fn sign(self) -> bool {
        self.bits >= SIGN_SPAN
    }

    /// The pattern with its sign bit cleared.
    pub open spec fn body(self) -> nat {
        (self.bits % SIGN_SPAN) as nat
    }

    /// The biased exponent field, `0..=255`.
    pub open spec fn exponent(self) -> nat {
        self.body() / (FRACTION_SPAN as nat)
    }

    /// The fraction field, below `2^23`.
    pub open spec fn fraction(self) -> nat {
        self.body() % (FRACTION_SPAN as nat)
    }

    /// Not a number: the exponent is all ones and the fraction is not zero.
    pub open spec fn nan(self) -> bool {
        self.exponent() == 255 && self.fraction() != 0
    }

    /// Neither an infinity nor a NaN.
    pub open spec fn finite(self) -> bool {
        self.exponent() < 255
    }

    /// The absolute value denoted by the pattern, times `2^149`.
    ///
    /// Subnormals (`exponent == 0`) are `fraction`; normals are
    /// `(2^23 + fraction) * 2^(exponent - 1)`. The same formula is used for an
    /// infinity, which thereby sits at `2^128`, above every finite number.
    pub open spec fn magnitude(self) -> nat {
        if self.exponent() == 0 {
            self.fraction()
        } else {
            (FRACTION_SPAN as nat + self.fraction()) * pow2((self.exponent() - 1) as nat)
        }
    }

    /// The number denoted by the pattern, times `2^149`, sign included.
    /// Meaningful for every pattern that is not a NaN.
    pub open spec fn value(self) -> int {
        if self.sign() {
            -(self.magnitude() as int)
        } else {
            self.magnitude() as int
        }
    }

    /// Positive or negative zero.
    pub open spec fn zero(self) -> bool {
        !self.nan() && self.value() == 0
    }

    /// `self >= 0` as IEEE-754 compares: false for a NaN, true for `-0`.
    pub open spec fn non_negative(self) -> bool {
        !self.nan() && self.value() >= 0
    }

    /// `self > 0` as IEEE-754 compares: false for a NaN and for both zeros.
    pub open spec fn positive(self) -> bool {
        !self.nan() && self.value() > 0
    }

    /// `self < other` as IEEE-754 compares: false as soon as one side is a NaN.
    pub open spec fn less(self, other: Scalar) -> bool {
        !self.nan() && !other.nan() && self.value() < other.value()
    }

    /// `self <= other` as IEEE-754 compares: false as soon as one side is a NaN.
    pub open spec fn at_most(self, other: Scalar) -> bool {
        !self.nan() && !other.nan() && self.value() <= other.value()
    }

    /// The scalar with the given bit pattern.
    pub fn from_bits(bits: u32) -> (s: Scalar)
        ensures
            s.bits == bits,
    {
        Scalar { bits }
    }

    /// The bit pattern.
    pub fn to_bits(&self) -> (bits: u32)
        ensures
            bits == self.bits,
    {
        self.bits
    }

    /// Whether the scalar is neither an infinity nor a NaN.
    pub fn is_finite(&self) -> (r: bool)
        ensures
            r == self.finite(),
    {
        (self.bits % SIGN_SPAN) / FRACTION_SPAN < 255
    }

    /// Whether the scalar is a NaN.
    pub fn is_nan(&self) -> (r: bool)
        ensures
            r == self.nan(),
    {
        let body: u32 = self.bits % SIGN_SPAN;
        body / FRACTION_SPAN == 255 && body % FRACTION_SPAN != 0
    }

    /// Whether the scalar is `+0` or `-0`.
    pub fn is_zero(&self) -> (r: bool)
        ensures
            r == self.zero(),
    {
        proof {
            lemma_magnitude_zero(*self);
        }
        self.bits % SIGN_SPAN == 0
    }

    /// Whether the scalar compares `>= 0`.
    pub fn is_non_negative(&self) -> (r: bool)
        ensures
            r == self.non_negative(),
    {
        proof {
            lemma_magnitude_zero(*self);
        }
        !self.is_nan() && (self.bits < SIGN_SPAN || self.bits % SIGN_SPAN == 0)
    }

    /// Whether the scalar compares `> 0`.
    pub fn is_positive(&self) -> (r: bool)
        ensures
            r == self.positive(),
    {
        proof {
            lemma_magnitude_zero(*self);
        }
        !self.is_nan() && self.bits < SIGN_SPAN && self.bits != 0
    }

    /// Whether `self < other`.
    pub fn lt(&self, other: &Scalar) -> (r: bool)
        ensures
            r == self.less(*other),
    {
        if self.is_nan() || other.is_nan() {
            return false;
        }
        let a: u32 = self.bits % SIGN_SPAN;
        let b: u32 = other.bits % SIGN_SPAN;
        proof {
            lemma_magnitude_order(*self, *other);
            lemma_magnitude_order(*other, *self);
            lemma_magnitude_zero(*self);
            lemma_magnitude_zero(*other);
        }
        if self.bits >= SIGN_SPAN {
            if other.bits >= SIGN_SPAN {
                b < a
            } else {
                a != 0 || b != 0
            }
        } else {
            other.bits < SIGN_SPAN && a < b
        }
    }

    /// Whether `self <= other`.
    pub fn le(&self, other: &Scalar) -> (r: bool)
        ensures
            r == self.at_most(*other),
    {
        if self.is_nan() || other.is_nan() {
            return false;
        }
        let a: u32 = self.bits % SIGN_SPAN;
        let b: u32 = other.bits % SIGN_SPAN;
        proof {
            lemma_magnitude_order(*self, *other);
            lemma_magnitude_order(*other, *self);
            lemma_magnitude_zero(*self);
            lemma_magnitude_zero(*other);
        }
        if self.bits >= SIGN_SPAN {
            other.bits < SIGN_SPAN || b <= a
        } else {
            if other.bits >= SIGN_SPAN {
                a == 0 && b == 0
            } else {
                a <= b
            }
        }
    }
}

/// The magnitude of a pattern is zero exactly when every bit below the sign is
/// clear.
pub proof fn lemma_magnitude_zero(s: Scalar)
    ensures
        s.magnitude() == 0 <==> s.body() == 0,
{
    let e = s.exponent();
    let f = s.fraction();
    if e != 0 {
        let p = pow2((e - 1) as nat);
        lemma_pow2_pos((e - 1) as nat);
        assert((FRACTION_SPAN as nat + f) * p > 0) by (nonlinear_arith)
            requires
                p > 0,
                f >= 0,
        ;
    }
}

/// Below an exponent's first pattern lies every magnitude of a smaller
/// exponent: `magnitude < 2^23 * 2^exponent`.
proof fn lemma_magnitude_ceiling(s: Scalar)
    ensures
        s.magnitude() < (FRACTION_SPAN as nat) * pow2(s.exponent()),
{
    let e = s.exponent();
    let f = s.fraction();
    if e == 0 {
        assert(pow2(0) == 1) by {
            vstd::arithmetic::power2::lemma2_to64();
        }
    } else {
        let p = pow2((e - 1) as nat);
        lemma_pow2_unfold(e);
        lemma_pow2_pos((e - 1) as nat);
        assert((0x0080_0000 + f) * p < 0x0080_0000 * (2 * p)) by (nonlinear_arith)
            requires
                p > 0,
                0 <= f < 0x0080_0000,
        ;
    }
}

/// Magnitudes grow with the pattern: of two patterns, the one whose bits below
/// the sign form the smaller number denotes the smaller absolute value.
pub proof fn lemma_magnitude_order(a: Scalar, b: Scalar)
    ensures
        a.body() < b.body() ==> a.magnitude() < b.magnitude(),
        a.body() == b.body() ==> a.magnitude() == b.magnitude(),
{
    if a.body() < b.body() {
        let ea = a.exponent();
        let eb = b.exponent();
        let fa = a.fraction();
        let fb = b.fraction();
        if ea == eb {
            if ea != 0 {
                let p = pow2((ea - 1) as nat);
                lemma_pow2_pos((ea - 1) as nat);
                assert((0x0080_0000 + fa) * p < (0x0080_0000 + fb) * p) by (nonlinear_arith)
                    requires
                        p > 0,
                        fa < fb,
                ;
            }
        } else {
            assert(ea < eb);
            lemma_magnitude_ceiling(a);
            let p = pow2((eb - 1) as nat);
            if ea < eb - 1 {
                lemma_pow2_strictly_increases(ea, (eb - 1) as nat);
            }
            assert(pow2(ea) <= p);
            assert(0x0080_0000 * pow2(ea) <= (0x0080_0000 + fb) * p) by (nonlinear_arith)
                requires
                    pow2(ea) <= p,
                    fb >= 0,
            ;
        }
    }
}

} // verus!
