//! Single-precision scalars, held by their IEEE 754 bit patterns.
//!
//! The geometry in this crate never does arithmetic on a scalar: it only
//! orders scalars. A `Scalar` therefore carries the 32 bits of a binary32
//! number, and its meaning is given by two spec functions: whether the
//! pattern is a NaN, and, where it is not, the number it denotes, scaled so
//! that it is an integer. The comparisons below run on the bits and are
//! proved to agree with the order of the denoted numbers.

use vstd::prelude::*;
use vstd::arithmetic::power2::{pow2, lemma_pow2_pos, lemma_pow2_unfold, lemma_pow2_strictly_increases};

verus! {

/// The sign bit of a binary32 pattern.
pub const SIGN_BIT: u32 = 0x8000_0000;

/// The pattern of positive infinity: every exponent bit set, no fraction bit.
pub const INFINITY_BITS: u32 = 0x7f80_0000;

/// Two to the power 23: the weight of the lowest exponent bit, and the
/// implicit leading bit of a normal number's significand.
pub const HIDDEN_BIT: u32 = 0x0080_0000;

/// A binary32 number, held by its bit pattern.
#[derive(Clone, Copy, Debug)]
pub struct Scalar {
    pub bits: u32,
}

impl Scalar {
    /// Whether the sign bit is set. It may be set on a zero and on a NaN.
    pub open spec fn sign_negative(self) -> bool {
        self.bits >= SIGN_BIT
    }

    /// The pattern without its sign bit: exponent field and fraction field.
    pub open spec fn magnitude(self) -> nat {
        if self.bits >= SIGN_BIT {
            (self.bits - SIGN_BIT) as nat
        } else {
            self.bits as nat
        }
    }

    /// The eight exponent bits, as a number from 0 to 255.
    pub open spec fn exponent_field(self) -> nat {
        self.magnitude() / (HIDDEN_BIT as nat)
    }

    /// The 23 fraction bits.
    pub open spec fn fraction_field(self) -> nat {
        self.magnitude() % (HIDDEN_BIT as nat)
    }

    /// A NaN has every exponent bit set and some fraction bit set.
    pub open spec fn not_a_number(self) -> bool {
        self.magnitude() > INFINITY_BITS
    }

    /// The absolute value of the denoted number, in units of 2^-149 (the
    /// smallest positive binary32 number).
    ///
    /// A subnormal number (exponent field 0) is `fraction * 2^-149`. A normal
    /// number is `(2^23 + fraction) * 2^(exponent - 150)`. The same formula
    /// puts an infinity at 2^128, one binade above every finite number, which
    /// is where the order of the extended reals wants it. On a NaN the result
    /// has no meaning.
    pub open spec fn scaled_magnitude(self) -> nat {
        if self.exponent_field() == 0 {
            self.fraction_field()
        } else {
            (HIDDEN_BIT as nat + self.fraction_field()) * pow2((self.exponent_field() - 1) as nat)
        }
    }

    /// The denoted number in units of 2^-149, with its sign. Both zeros
    /// denote 0.
    pub open spec fn scaled_value(self) -> int {
        if self.sign_negative() {
            -(self.scaled_magnitude() as int)
        } else {
            self.scaled_magnitude() as int
        }
    }

    /// IEEE 754 `<`: false when either side is a NaN, else the order of the
    /// denoted numbers.
    pub open spec fn less_than(self, other: Scalar) -> bool {
        &&& !self.not_a_number()
        &&& !other.not_a_number()
        &&& self.scaled_value() < other.scaled_value()
    }

    /// IEEE 754 `==`: false when either side is a NaN, else equality of the
    /// denoted numbers. The two zeros are equal.
    pub open spec fn same_value(self, other: Scalar) -> bool {
        &&& !self.not_a_number()
        &&& !other.not_a_number()
        &&& self.scaled_value() == other.scaled_value()
    }

    /// `self > 0`: a number, and above zero.
    pub open spec fn positive(self) -> bool {
        !self.not_a_number() && self.scaled_value() > 0
    }

    /// Membership in the open interval `(low, high)`. Both ends are left out,
    /// and a NaN anywhere makes it false.
    pub open spec fn strictly_between(self, low: Scalar, high: Scalar) -> bool {
        low.less_than(self) && self.less_than(high)
    }

    /// The key by which the bit patterns are ordered: the magnitude bits read
    /// as an integer, negated under a sign bit.
    pub open spec fn order_key(self) -> int {
        if self.sign_negative() {
            -(self.magnitude() as int)
        } else {
            self.magnitude() as int
        }
    }
}

impl Scalar {
    /// The scalar with the given bit pattern.
    pub fn from_bits(bits: u32) -> (s: Scalar)
        ensures
            s.bits == bits,
    {
        Scalar { bits }
    }

    /// The bit pattern.
    pub fn to_bits(self) -> (bits: u32)
        ensures
            bits == self.bits,
    {
        self.bits
    }

    /// Positive zero.
    pub fn zero() -> (z: Scalar)
        ensures
            z.bits == 0,
            z.scaled_value() == 0,
            !z.not_a_number(),
    {
        Scalar { bits: 0 }
    }

    /// The magnitude bits.
    fn magnitude_bits(self) -> (m: u32)
        ensures
            m == self.magnitude(),
            m < SIGN_BIT,
    {
        if self.bits >= SIGN_BIT {
            self.bits - SIGN_BIT
        } else {
            self.bits
        }
    }

    /// Whether the pattern is a NaN.
    pub fn is_nan(self) -> (r: bool)
        ensures
            r == self.not_a_number(),
    {
        self.magnitude_bits() > INFINITY_BITS
    }

    /// The integer that orders the pattern among the numbers.
    fn key(self) -> (k: i64)
        ensures
            k == self.order_key(),
    {
        let m: u32 = self.magnitude_bits();
        if self.bits >= SIGN_BIT {
            -(m as i64)
        } else {
            m as i64
        }
    }

    /// `self < other`, as IEEE 754 orders the two numbers.
    pub fn lt(self, other: Scalar) -> (r: bool)
        ensures
            r == self.less_than(other),
    {
        proof {
            lemma_order_key_orders_values(self, other);
        }
        !self.is_nan() && !other.is_nan() && self.key() < other.key()
    }

    /// `self > other`, as IEEE 754 orders the two numbers.
    pub fn gt(self, other: Scalar) -> (r: bool)
        ensures
            r == other.less_than(self),
    {
        other.lt(self)
    }

    /// `self > 0`.
    pub fn is_positive(self) -> (r: bool)
        ensures
            r == self.positive(),
    {
        self.gt(Scalar::zero())
    }

    /// Whether `low < self` and `self < high`.
    pub fn is_strictly_between(self, low: Scalar, high: Scalar) -> (r: bool)
        ensures
            r == self.strictly_between(low, high),
    {
        self.lt(high) && self.gt(low)
    }
}

/// The scaled magnitude grows strictly with the magnitude bits.
proof fn lemma_scaled_magnitude_increases(a: Scalar, b: Scalar)
    requires
        a.magnitude() < b.magnitude(),
    ensures
        a.scaled_magnitude() < b.scaled_magnitude(),
{
    let ea = a.exponent_field();
    let eb = b.exponent_field();
    let fa = a.fraction_field();
    let fb = b.fraction_field();
    let h = HIDDEN_BIT as nat;
    assert(a.magnitude() == ea * h + fa && fa < h);
    assert(b.magnitude() == eb * h + fb && fb < h);
    assert(ea <= eb);
    if ea == eb {
        assert(fa < fb);
        if ea > 0 {
            let p = pow2((ea - 1) as nat);
            lemma_pow2_pos((ea - 1) as nat);
            assert((h + fa) * p < (h + fb) * p) by (nonlinear_arith)
                requires
                    fa < fb,
                    p > 0,
            ;
        }
    } else {
        let q = pow2((eb - 1) as nat);
        lemma_pow2_pos((eb - 1) as nat);
        assert(h * q <= (h + fb) * q) by (nonlinear_arith)
            requires
                q > 0,
        ;
        assert(h * 1 <= h * q) by (nonlinear_arith)
            requires
                q >= 1,
        ;
        if ea > 0 {
            let p = pow2((ea - 1) as nat);
            lemma_pow2_pos((ea - 1) as nat);
            lemma_pow2_unfold(ea);
            assert(pow2(ea) == 2 * p);
            if ea < eb - 1 {
                lemma_pow2_strictly_increases(ea, (eb - 1) as nat);
            }
            assert(2 * p <= q);
            assert((h + fa) * p < h * q) by (nonlinear_arith)
                requires
                    fa < h,
                    p > 0,
                    2 * p <= q,
            ;
        }
    }
}

/// The scaled magnitude is zero exactly on the two zeros.
proof fn lemma_scaled_magnitude_zero(a: Scalar)
    ensures
        (a.scaled_magnitude() == 0) == (a.magnitude() == 0),
{
    let e = a.exponent_field();
    let f = a.fraction_field();
    let h = HIDDEN_BIT as nat;
    assert(a.magnitude() == e * h + f && f < h);
    if e > 0 {
        let p = pow2((e - 1) as nat);
        lemma_pow2_pos((e - 1) as nat);
        assert((h + f) * p > 0) by (nonlinear_arith)
            requires
                h > 0,
                p > 0,
        ;
    }
}

/// The order of the keys is the order of the denoted numbers: comparing two
/// patterns by `order_key` gives what comparing the numbers by
/// `scaled_value` gives, for `<` and for `==`.
pub proof fn lemma_order_key_orders_values(a: Scalar, b: Scalar)
    ensures
        (a.order_key() < b.order_key()) == (a.scaled_value() < b.scaled_value()),
        (a.order_key() == b.order_key()) == (a.scaled_value() == b.scaled_value()),
{
    lemma_scaled_magnitude_zero(a);
    lemma_scaled_magnitude_zero(b);
    if a.magnitude() < b.magnitude() {
        lemma_scaled_magnitude_increases(a, b);
    } else if b.magnitude() < a.magnitude() {
        lemma_scaled_magnitude_increases(b, a);
    } else {
        assert(a.exponent_field() == b.exponent_field());
        assert(a.fraction_field() == b.fraction_field());
    }
}

} // verus!
