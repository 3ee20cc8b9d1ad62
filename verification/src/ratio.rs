//! Exact non-negative fractions.
//!
//! Every multiplier of the combat model is a quotient of two small integers. A
//! [`Ratio`] keeps numerator and denominator apart, so that the tables and their
//! products are exact and the laws between them can be proved. The tables
//! multiply within 64 bits; a product with a fraction that a caller chose is a
//! [`WideRatio`].

use vstd::prelude::*;

verus! {

/// The fraction `num / den`. It denotes a number when `den` is not zero.
///
/// `==` compares the two fields: `1/2` and `2/4` are different representations
/// of one number, which [`Ratio::same_value`] tells.
#[derive(Debug, Clone, Copy, PartialEq, Eq, Structural)]
pub struct Ratio {
    pub num: u64,
    pub den: u64,
}

/// A fraction with parts of 128 bits. The product of any two [`Ratio`]s is one,
/// exactly.
#[derive(Debug, Clone, Copy, PartialEq, Eq, Structural)]
pub struct WideRatio {
    pub num: u128,
    pub den: u128,
}

impl WideRatio {
    /// The fraction denotes the same number as `other`.
    pub open spec fn same_value_as(self, other: Ratio) -> bool {
        self.num * other.den == other.num * self.den
    }
}

impl Ratio {
    /// The fraction denotes a number.
    pub open spec fn well_formed(self) -> bool {
        self.den > 0
    }

    /// Both fractions denote the same number.
    pub open spec fn spec_same_value(self, other: Ratio) -> bool {
        self.num * other.den == other.num * self.den
    }

    /// The fraction denotes the number one.
    pub open spec fn is_one(self) -> bool {
        self.den > 0 && self.num == self.den
    }

    /// The product of the two numbers is one.
    pub open spec fn is_reciprocal_of(self, other: Ratio) -> bool {
        &&& self.den > 0
        &&& other.den > 0
        &&& self.num * other.num == self.den * other.den
    }

    /// The first number is at most the second.
    pub open spec fn spec_at_most(self, other: Ratio) -> bool {
        self.num * other.den <= other.num * self.den
    }

    /// Numerators and denominators multiplied, without reducing.
    pub open spec fn spec_times(self, rhs: Ratio) -> Ratio {
        Ratio { num: (self.num * rhs.num) as u64, den: (self.den * rhs.den) as u64 }
    }

    /// The products of [`Ratio::spec_times`] fit in 64 bits.
    pub open spec fn times_fits(self, rhs: Ratio) -> bool {
        self.num * rhs.num <= u64::MAX && self.den * rhs.den <= u64::MAX
    }

    /// Numerators and denominators multiplied in 128 bits, without reducing.
    pub open spec fn spec_times_wide(self, rhs: Ratio) -> WideRatio {
        WideRatio { num: (self.num * rhs.num) as u128, den: (self.den * rhs.den) as u128 }
    }

    /// The number one, as `1/1`.
    pub open spec fn spec_one() -> Ratio {
        Ratio { num: 1, den: 1 }
    }

    /// The fraction of a numerator and a denominator, in that order.
    pub fn from_pair(pair: (u64, u64)) -> (r: Ratio)
        ensures
            r.num == pair.0,
            r.den == pair.1,
    {
        Ratio { num: pair.0, den: pair.1 }
    }

    /// The number one, as `1/1`.
    #[verifier::when_used_as_spec(spec_one)]
    pub fn one() -> (r: Ratio)
        ensures
            r == Ratio::spec_one(),
            r.is_one(),
    {
        Ratio { num: 1, den: 1 }
    }

    /// The product of two fractions, not reduced.
    #[verifier::when_used_as_spec(spec_times)]
    pub fn times(self, rhs: Ratio) -> (r: Ratio)
        requires
            self.times_fits(rhs),
        ensures
            r == self.spec_times(rhs),
            r.num == self.num * rhs.num,
            r.den == self.den * rhs.den,
    {
        Ratio { num: self.num * rhs.num, den: self.den * rhs.den }
    }

    /// The product of two fractions, not reduced. It always fits.
    #[verifier::when_used_as_spec(spec_times_wide)]
    pub fn times_wide(self, rhs: Ratio) -> (r: WideRatio)
        ensures
            r == self.spec_times_wide(rhs),
            r.num == self.num * rhs.num,
            r.den == self.den * rhs.den,
    {
        assert(self.num * rhs.num <= u128::MAX && self.den * rhs.den <= u128::MAX)
            by (nonlinear_arith)
            requires
                self.num <= u64::MAX,
                rhs.num <= u64::MAX,
                self.den <= u64::MAX,
                rhs.den <= u64::MAX,
        ;
        WideRatio { num: widen(self.num) * widen(rhs.num), den: widen(self.den) * widen(rhs.den) }
    }

    /// Tells whether two fractions denote the same number.
    #[verifier::when_used_as_spec(spec_same_value)]
    pub fn same_value(self, other: Ratio) -> (b: bool)
        ensures
            b == self.spec_same_value(other),
    {
        assert(self.num * other.den <= u128::MAX && other.num * self.den <= u128::MAX)
            by (nonlinear_arith)
            requires
                self.num <= u64::MAX,
                other.den <= u64::MAX,
                other.num <= u64::MAX,
                self.den <= u64::MAX,
        ;
        let left: u128 = widen(self.num) * widen(other.den);
        let right: u128 = widen(other.num) * widen(self.den);
        left == right
    }
}

/// The same number in 128 bits.
fn widen(x: u64) -> (w: u128)
    ensures
        w == x,
{
    x as u128
}

/// Multiplying by `1/1` gives the same representation back.
pub proof fn lemma_times_one(a: Ratio)
    ensures
        a.spec_times(Ratio::spec_one()) == a,
        Ratio::spec_one().spec_times(a) == a,
        a.spec_times_wide(Ratio::spec_one()).num == a.num,
        a.spec_times_wide(Ratio::spec_one()).den == a.den,
{
}

} // verus!
