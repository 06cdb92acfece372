//! Lengths on screen.
//!
//! A length is an IEEE-754 single-precision number. It is carried as its bit
//! pattern, so that it can be stored, copied and compared without any
//! floating-point arithmetic.

use vstd::prelude::*;
use vstd::arithmetic::power2::pow2;
use vstd::std_specs::cmp::PartialEqSpecImpl;

verus! {

/// A length in pixels, held as the bit pattern of a single-precision number:
/// one sign bit, eight exponent bits, twenty-three fraction bits.
#[derive(Clone, Copy, Debug)]
pub struct Pixels {
    pub bits: u32,
}

impl Pixels {
    /// The pattern without its sign bit.
    pub open spec fn magnitude(self) -> int {
        if self.bits >= 0x8000_0000 {
            self.bits - 0x8000_0000
        } else {
            self.bits as int
        }
    }

    /// The biased exponent, the eight bits below the sign.
    pub open spec fn exponent(self) -> nat {
        (self.magnitude() / 0x80_0000) as nat
    }

    /// The fraction, the low twenty-three bits.
    pub open spec fn fraction(self) -> int {
        self.magnitude() % 0x80_0000
    }

    /// Not a number: all exponent bits set and a fraction that is not zero.
    pub open spec fn is_nan(self) -> bool {
        self.magnitude() > 0x7f80_0000
    }

    /// Positive or negative zero.
    pub open spec fn is_zero(self) -> bool {
        self.magnitude() == 0
    }

    /// The pattern is a normal number whose value is exactly the integer `n`.
    ///
    /// A normal number with sign `s`, exponent `e` and fraction `f` has the value
    /// `s * (2^23 + f) * 2^(e - 150)`.
    pub open spec fn is_integer(self, n: int) -> bool {
        let sign: int = if self.bits >= 0x8000_0000 { -1 } else { 1 };
        &&& 1 <= self.exponent() <= 254
        &&& sign * (0x80_0000 + self.fraction()) * pow2(self.exponent()) == n * pow2(150)
    }

    /// The two patterns denote the same number. No pattern that is not a number
    /// equals anything, itself included, and the two zeros are equal.
    pub open spec fn same_number(self, other: Pixels) -> bool {
        &&& !self.is_nan()
        &&& !other.is_nan()
        &&& (self.bits == other.bits || (self.is_zero() && other.is_zero()))
    }

    /// The pattern with its sign bit cleared.
    fn without_sign(&self) -> (m: u32)
        ensures
            m == self.magnitude(),
    {
        let bits: u32 = self.bits;
        assert(bits & 0x7fff_ffff == if bits >= 0x8000_0000 {
            (bits - 0x8000_0000) as u32
        } else {
            bits
        }) by (bit_vector);
        bits & 0x7fff_ffff
    }
}

/// A length equals itself unless it is not a number.
pub proof fn lemma_same_number_reflexive(a: Pixels)
    ensures
        a.same_number(a) <==> !a.is_nan(),
{
}

/// Equality of lengths does not depend on the order of the two sides.
pub proof fn lemma_same_number_symmetric(a: Pixels, b: Pixels)
    ensures
        a.same_number(b) == b.same_number(a),
{
}

/// Two lengths that equal a third one equal each other.
pub proof fn lemma_same_number_transitive(a: Pixels, b: Pixels, c: Pixels)
    requires
        a.same_number(b),
        b.same_number(c),
    ensures
        a.same_number(c),
{
}

/// Lengths that are equal and not zero have the same bit pattern.
pub proof fn lemma_same_number_same_bits(a: Pixels, b: Pixels)
    requires
        a.same_number(b),
        !a.is_zero(),
    ensures
        a.bits == b.bits,
{
}

impl PartialEq for Pixels {
    fn eq(&self, other: &Self) -> (r: bool) {
        let a: u32 = self.without_sign();
        let b: u32 = other.without_sign();
        a <= 0x7f80_0000 && b <= 0x7f80_0000 && (self.bits == other.bits || (a == 0 && b == 0))
    }
}

impl PartialEqSpecImpl for Pixels {
    open spec fn obeys_eq_spec() -> bool {
        true
    }

    open spec fn eq_spec(&self, other: &Pixels) -> bool {
        self.same_number(*other)
    }
}

} // verus!
