//! Lengths and two-dimensional extents.
//!
//! A [`Length`] is either a finite exact rational or the distinguished
//! `Infinite` sentinel that stands for an unbounded layout axis. Comparisons
//! treat every finite value as smaller than `Infinite`, and scaling by a
//! positive ratio keeps `Infinite` unbounded, exactly as the resolver's
//! arithmetic rules demand.

use vstd::prelude::*;

use crate::rat::Rat;
use crate::rat::RatModel;

verus! {

/// Mathematical model of a length: a finite exact rational or the unbounded
/// sentinel.
pub enum LengthModel {
    Finite(RatModel),
    Infinite,
}

impl LengthModel {
    /// Finite values are well-formed rationals.
    pub open spec fn wf(self) -> bool {
        match self {
            LengthModel::Finite(r) => r.wf(),
            LengthModel::Infinite => true,
        }
    }

    /// A finite value's components are bounded by `b`.
    pub open spec fn bounded(self, b: int) -> bool {
        match self {
            LengthModel::Finite(r) => r.bounded(b),
            LengthModel::Infinite => true,
        }
    }

    pub open spec fn is_finite(self) -> bool {
        self is Finite
    }

    /// `self <= other`: every value lies at or below the unbounded sentinel,
    /// and finite values compare exactly.
    pub open spec fn le(self, other: LengthModel) -> bool {
        match (self, other) {
            (_, LengthModel::Infinite) => true,
            (LengthModel::Infinite, LengthModel::Finite(_)) => false,
            (LengthModel::Finite(a), LengthModel::Finite(b)) => a.le(b),
        }
    }

    /// Equal as lengths: both unbounded, or finite with equal values.
    pub open spec fn eq_len(self, other: LengthModel) -> bool {
        match (self, other) {
            (LengthModel::Infinite, LengthModel::Infinite) => true,
            (LengthModel::Finite(a), LengthModel::Finite(b)) => a.eq_rat(b),
            _ => false,
        }
    }

    /// `self < other`.
    pub open spec fn lt(self, other: LengthModel) -> bool {
        match (self, other) {
            (LengthModel::Infinite, _) => false,
            (LengthModel::Finite(_), LengthModel::Infinite) => true,
            (LengthModel::Finite(a), LengthModel::Finite(b)) => a.lt(b),
        }
    }

    /// The smaller of the two lengths; on a tie of finite values, `self`.
    pub open spec fn min(self, other: LengthModel) -> LengthModel {
        match (self, other) {
            (LengthModel::Infinite, o) => o,
            (LengthModel::Finite(a), LengthModel::Infinite) => LengthModel::Finite(a),
            (LengthModel::Finite(a), LengthModel::Finite(b)) => LengthModel::Finite(a.min(b)),
        }
    }

    /// Scale by the positive ratio `num / den`; an unbounded length stays
    /// unbounded.
    pub open spec fn scale(self, num: int, den: int) -> LengthModel {
        match self {
            LengthModel::Finite(a) => LengthModel::Finite(a.mul(RatModel { num, den })),
            LengthModel::Infinite => LengthModel::Infinite,
        }
    }
}

/// A layout length: a finite exact rational number of length units, or
/// `Infinite` for an unbounded axis.
#[derive(Clone, Copy, Debug, PartialEq, Eq, Structural)]
pub enum Length {
    Finite(Rat),
    Infinite,
}

impl View for Length {
    type V = LengthModel;

    open spec fn view(&self) -> LengthModel {
        match *self {
            Length::Finite(r) => LengthModel::Finite(r@),
            Length::Infinite => LengthModel::Infinite,
        }
    }
}

impl Length {
    pub fn is_finite(&self) -> (r: bool)
        ensures
            r == self@.is_finite(),
    {
        match self {
            Length::Finite(_) => true,
            Length::Infinite => false,
        }
    }

    /// Equal as lengths: both unbounded, or finite with equal values, the
    /// representations aside.
    pub fn eq_len(&self, other: &Length) -> (r: bool)
        ensures
            r == self@.eq_len(other@),
    {
        match (self, other) {
            (Length::Infinite, Length::Infinite) => true,
            (Length::Finite(a), Length::Finite(b)) => a.eq_rat(b),
            _ => false,
        }
    }

    /// Exact `self < other`, with every finite value below `Infinite`.
    pub fn lt(&self, other: &Length) -> (r: bool)
        ensures
            r == self@.lt(other@),
    {
        match (self, other) {
            (Length::Infinite, _) => false,
            (Length::Finite(_), Length::Infinite) => true,
            (Length::Finite(a), Length::Finite(b)) => a.lt(b),
        }
    }

    /// The smaller of the two lengths; on a tie of finite values, `self`.
    pub fn min(&self, other: &Length) -> (r: Length)
        ensures
            r@ == self@.min(other@),
    {
        match (self, other) {
            (Length::Infinite, o) => *o,
            (Length::Finite(a), Length::Infinite) => Length::Finite(*a),
            (Length::Finite(a), Length::Finite(b)) => Length::Finite(a.min(b)),
        }
    }

    /// Scale by the positive ratio `num / den`. The caller keeps the finite
    /// component products within `u64`.
    pub fn scale(&self, num: u64, den: u64) -> (r: Length)
        requires
            match self@ {
                LengthModel::Finite(a) => a.num * num <= u64::MAX && a.den * den <= u64::MAX,
                LengthModel::Infinite => true,
            },
        ensures
            r@ == self@.scale(num as int, den as int),
    {
        match self {
            Length::Finite(a) => Length::Finite(a.mul(&Rat { num, den })),
            Length::Infinite => Length::Infinite,
        }
    }
}

/// Mathematical model of a two-dimensional extent.
pub struct SizeModel {
    pub x: LengthModel,
    pub y: LengthModel,
}

impl SizeModel {
    pub open spec fn wf(self) -> bool {
        self.x.wf() && self.y.wf()
    }

    pub open spec fn bounded(self, b: int) -> bool {
        self.x.bounded(b) && self.y.bounded(b)
    }
}

/// A two-dimensional extent; each axis is finite or unbounded.
#[derive(Clone, Copy, Debug, PartialEq, Eq, Structural)]
pub struct Size {
    pub x: Length,
    pub y: Length,
}

impl View for Size {
    type V = SizeModel;

    open spec fn view(&self) -> SizeModel {
        SizeModel { x: self.x@, y: self.y@ }
    }
}

} // verus!
