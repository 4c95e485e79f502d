//! Exact non-negative rational numbers.
//!
//! A [`Rat`] is a numerator/denominator pair of machine integers; its
//! mathematical value is modelled by [`RatModel`], a pair of unbounded
//! integers. All comparisons are exact cross-multiplications carried out in
//! 128-bit intermediates, so they never overflow. Multiplication requires the
//! products to fit the component type; the resolver keeps all quantities
//! within documented bounds so that this always holds.

use vstd::prelude::*;

verus! {

/// Largest numerator or denominator accepted for an input quantity (an
/// intrinsic pixel dimension, a region extent, an absolute request, or a
/// fraction). Intermediate results of the resolver grow by at most three
/// further factors of this size, so they stay within `u64`.
pub const MAX_INPUT: u64 = 0xFFFF;

/// Bound on a working-region component: the product of two input-sized
/// quantities (a fraction resolved against a region extent).
pub const MAX_WORKING: u64 = 0xFFFF_FFFF;

/// Bound on a target-box component: a working-region component scaled once
/// by a pixel ratio.
pub const MAX_TARGET: u64 = 0xFFFF_FFFF_FFFF;

/// Mathematical model of a rational number: an exact pair of unbounded
/// integers. Well-formed values have a non-negative numerator and a positive
/// denominator.
pub struct RatModel {
    pub num: int,
    pub den: int,
}

impl RatModel {
    /// Non-negative value with a positive denominator.
    pub open spec fn wf(self) -> bool {
        0 <= self.num && 1 <= self.den
    }

    /// Both components bounded by `b`.
    pub open spec fn bounded(self, b: int) -> bool {
        self.num <= b && self.den <= b
    }

    /// `self <= other`, by cross-multiplication.
    pub open spec fn le(self, other: RatModel) -> bool {
        self.num * other.den <= other.num * self.den
    }

    /// `self < other`, by cross-multiplication.
    pub open spec fn lt(self, other: RatModel) -> bool {
        self.num * other.den < other.num * self.den
    }

    /// The two values are equal as rationals (not necessarily as pairs).
    pub open spec fn eq_rat(self, other: RatModel) -> bool {
        self.num * other.den == other.num * self.den
    }

    /// Exact product.
    pub open spec fn mul(self, other: RatModel) -> RatModel {
        RatModel { num: self.num * other.num, den: self.den * other.den }
    }

    /// The smaller of the two values; on a tie, `self`.
    pub open spec fn min(self, other: RatModel) -> RatModel {
        if self.le(other) {
            self
        } else {
            other
        }
    }
}

/// `<=` on well-formed rationals is transitive.
pub proof fn lemma_rat_le_trans(a: RatModel, b: RatModel, c: RatModel)
    by (nonlinear_arith)
    requires
        a.wf(),
        b.wf(),
        c.wf(),
        a.le(b),
        b.le(c),
    ensures
        a.le(c),
{
}

/// Multiplying two well-formed bounded rationals keeps well-formedness, and
/// the product's components are bounded by the product of the bounds.
pub proof fn lemma_rat_mul_bound(a: RatModel, b: RatModel, ba: int, bb: int)
    by (nonlinear_arith)
    requires
        a.wf(),
        b.wf(),
        a.bounded(ba),
        b.bounded(bb),
    ensures
        a.mul(b).wf(),
        a.mul(b).bounded(ba * bb),
        a.num * b.num <= ba * bb,
        a.den * b.den <= ba * bb,
{
}

/// The product of two 64-bit quantities always fits 128 bits.
proof fn lemma_u64_mul_fits_u128(a: u64, b: u64)
    by (nonlinear_arith)
    ensures
        (a as int) * (b as int) <= u128::MAX,
{
}

/// An exact non-negative rational with machine-integer components. The
/// denominator must be positive; values need not be in lowest terms.
#[derive(Clone, Copy, Debug, PartialEq, Eq, Structural)]
pub struct Rat {
    pub num: u64,
    pub den: u64,
}

impl View for Rat {
    type V = RatModel;

    open spec fn view(&self) -> RatModel {
        RatModel { num: self.num as int, den: self.den as int }
    }
}

impl Rat {
    /// Build a rational from a numerator and a positive denominator.
    pub fn new(num: u64, den: u64) -> (r: Rat)
        requires
            1 <= den,
        ensures
            r@ == (RatModel { num: num as int, den: den as int }),
            r@.wf(),
    {
        Rat { num, den }
    }

    /// A whole number.
    pub fn whole(num: u64) -> (r: Rat)
        ensures
            r@ == (RatModel { num: num as int, den: 1int }),
            r@.wf(),
    {
        Rat { num, den: 1 }
    }

    /// Exact `self <= other`.
    pub fn le(&self, other: &Rat) -> (r: bool)
        ensures
            r == self@.le(other@),
    {
        proof {
            lemma_u64_mul_fits_u128(self.num, other.den);
            lemma_u64_mul_fits_u128(other.num, self.den);
        }
        (self.num as u128) * (other.den as u128) <= (other.num as u128) * (self.den as u128)
    }

    /// Exact `self < other`.
    pub fn lt(&self, other: &Rat) -> (r: bool)
        ensures
            r == self@.lt(other@),
    {
        proof {
            lemma_u64_mul_fits_u128(self.num, other.den);
            lemma_u64_mul_fits_u128(other.num, self.den);
        }
        (self.num as u128) * (other.den as u128) < (other.num as u128) * (self.den as u128)
    }

    /// Exact equality of values (representations may differ).
    pub fn eq_rat(&self, other: &Rat) -> (r: bool)
        ensures
            r == self@.eq_rat(other@),
    {
        proof {
            lemma_u64_mul_fits_u128(self.num, other.den);
            lemma_u64_mul_fits_u128(other.num, self.den);
        }
        (self.num as u128) * (other.den as u128) == (other.num as u128) * (self.den as u128)
    }

    /// The smaller value; on a tie, `self`.
    pub fn min(&self, other: &Rat) -> (r: Rat)
        ensures
            r@ == self@.min(other@),
    {
        if self.le(other) {
            *self
        } else {
            *other
        }
    }

    /// Exact product. The caller must keep the component products within
    /// `u64`; the resolver's bound discipline guarantees this.
    pub fn mul(&self, other: &Rat) -> (r: Rat)
        requires
            self@.num * other@.num <= u64::MAX,
            self@.den * other@.den <= u64::MAX,
        ensures
            r@ == self@.mul(other@),
    {
        Rat { num: self.num * other.num, den: self.den * other.den }
    }
}

} // verus!
