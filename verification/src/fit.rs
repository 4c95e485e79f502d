//! The image-fitting layout resolver.
//!
//! Given an image's intrinsic pixel dimensions, a requested sizing per axis,
//! an available region and a fit mode, [`resolve`] computes the target box
//! the image is resized into, the placed extent of the image before that
//! resize, and whether the placed content must be clipped to the target.
//!
//! The whole computation is specified by [`spec_resolve`], a direct
//! mathematical statement of the algorithm over exact rationals:
//!
//! 1. Resolve each requested axis against the region to obtain the working
//!    region (an unresolved axis falls back to the region's extent).
//! 2. An axis expands if its request is explicit or the region demands it.
//! 3. The image is `wide` if its pixel ratio strictly exceeds the working
//!    region's ratio, where an unbounded divisor makes the ratio zero and an
//!    unbounded numerator makes the comparison false.
//! 4. The target box fills the working region when both axes expand, is
//!    width-driven when the width expands (or the image is wide within a
//!    finite width and the height does not expand), is height-driven when
//!    the height is finite, and otherwise is the intrinsic size itself.
//! 5. The placed extent equals the target for `Stretch`; for `Cover` and
//!    `Contain` one axis is matched to the target and the other is derived
//!    from the pixel ratio, choosing the driving axis so that `Cover`
//!    overflows and `Contain` underflows.
//! 6. Clipping is needed exactly when the mode is `Cover` and the placed
//!    extent strictly exceeds the target on some axis.

use vstd::prelude::*;

use crate::geom::Length;
use crate::geom::LengthModel;
use crate::geom::Size;
use crate::geom::SizeModel;
use crate::rat::Rat;
use crate::rat::RatModel;
use crate::rat::lemma_rat_mul_bound;
use crate::rat::MAX_INPUT;
use crate::rat::MAX_TARGET;
use crate::rat::MAX_WORKING;

verus! {

/// How an image should adjust itself to a given area.
#[derive(Clone, Copy, Debug, PartialEq, Eq, Structural)]
pub enum ImageFit {
    /// The image should completely cover the area.
    Cover,
    /// The image should be fully contained in the area.
    Contain,
    /// The image should be stretched so that it exactly fills the area.
    Stretch,
}

impl Default for ImageFit {
    /// The default fit mode is `Cover`.
    fn default() -> (r: ImageFit)
        ensures
            r == ImageFit::Cover,
    {
        ImageFit::Cover
    }
}

/// Mathematical model of a requested size along one axis.
pub enum SizingModel {
    /// No request: the axis falls back to the region.
    Auto,
    /// An absolute length.
    Absolute(RatModel),
    /// A fraction of the region's extent on this axis.
    Fraction(RatModel),
}

impl SizingModel {
    pub open spec fn wf(self) -> bool {
        match self {
            SizingModel::Auto => true,
            SizingModel::Absolute(r) => r.wf(),
            SizingModel::Fraction(r) => r.wf(),
        }
    }

    pub open spec fn bounded(self, b: int) -> bool {
        match self {
            SizingModel::Auto => true,
            SizingModel::Absolute(r) => r.bounded(b),
            SizingModel::Fraction(r) => r.bounded(b),
        }
    }
}

/// The requested size along one axis.
#[derive(Clone, Copy, Debug, PartialEq, Eq, Structural)]
pub enum AxisSizing {
    /// No request: the axis falls back to the region.
    Auto,
    /// An absolute length.
    Absolute(Rat),
    /// A fraction of the region's extent on this axis.
    Fraction(Rat),
}

impl View for AxisSizing {
    type V = SizingModel;

    open spec fn view(&self) -> SizingModel {
        match *self {
            AxisSizing::Auto => SizingModel::Auto,
            AxisSizing::Absolute(r) => SizingModel::Absolute(r@),
            AxisSizing::Fraction(r) => SizingModel::Fraction(r@),
        }
    }
}

impl AxisSizing {
    /// Whether a size was requested at all.
    pub fn is_explicit(&self) -> (r: bool)
        ensures
            r == !(self@ is Auto),
    {
        match self {
            AxisSizing::Auto => false,
            AxisSizing::Absolute(_) => true,
            AxisSizing::Fraction(_) => true,
        }
    }
}

/// An image's native pixel dimensions; both are strictly positive.
#[derive(Clone, Copy, Debug, PartialEq, Eq, Structural)]
pub struct IntrinsicSize {
    pub width_px: u64,
    pub height_px: u64,
}

impl IntrinsicSize {
    /// Positive dimensions within the input bound.
    pub open spec fn wf(self) -> bool {
        1 <= self.width_px <= MAX_INPUT && 1 <= self.height_px <= MAX_INPUT
    }

    pub fn new(width_px: u64, height_px: u64) -> (r: IntrinsicSize)
        requires
            1 <= width_px <= MAX_INPUT,
            1 <= height_px <= MAX_INPUT,
        ensures
            r.width_px == width_px,
            r.height_px == height_px,
            r.wf(),
    {
        IntrinsicSize { width_px, height_px }
    }
}

/// Mathematical model of the available layout box.
pub struct RegionModel {
    pub available: SizeModel,
    pub expand_x: bool,
    pub expand_y: bool,
}

impl RegionModel {
    pub open spec fn wf(self) -> bool {
        self.available.wf()
    }

    pub open spec fn bounded(self, b: int) -> bool {
        self.available.bounded(b)
    }
}

/// The available layout box: an extent per axis and per-axis flags that
/// force the content to occupy the full extent on that axis.
#[derive(Clone, Copy, Debug, PartialEq, Eq, Structural)]
pub struct Region {
    pub available: Size,
    pub expand_x: bool,
    pub expand_y: bool,
}

impl View for Region {
    type V = RegionModel;

    open spec fn view(&self) -> RegionModel {
        RegionModel { available: self.available@, expand_x: self.expand_x, expand_y: self.expand_y }
    }
}

/// Mathematical model of the resolver's output.
pub struct FitResultModel {
    pub target: SizeModel,
    pub placed: SizeModel,
    pub clip: bool,
}

/// The resolver's output: the box the frame is resized into, the image's
/// placed extent before that resize, and whether clipping is needed.
#[derive(Clone, Copy, Debug, PartialEq, Eq, Structural)]
pub struct FitResult {
    pub target: Size,
    pub placed: Size,
    pub clip: bool,
}

impl View for FitResult {
    type V = FitResultModel;

    open spec fn view(&self) -> FitResultModel {
        FitResultModel { target: self.target@, placed: self.placed@, clip: self.clip }
    }
}

/// Resolve one requested axis against the region's extent on that axis.
/// An absolute request stands by itself; a fraction is taken of the extent,
/// where a positive fraction of an unbounded extent is unbounded and a zero
/// fraction of it is zero; no request falls back to the extent.
pub open spec fn spec_resolve_axis(s: SizingModel, avail: LengthModel) -> LengthModel {
    match s {
        SizingModel::Auto => avail,
        SizingModel::Absolute(r) => LengthModel::Finite(r),
        SizingModel::Fraction(f) => match avail {
            LengthModel::Finite(a) => LengthModel::Finite(f.mul(a)),
            LengthModel::Infinite => if f.num == 0 {
                LengthModel::Finite(RatModel { num: 0, den: 1 })
            } else {
                LengthModel::Infinite
            },
        },
    }
}

/// The working region: each requested axis resolved against the region.
pub open spec fn spec_working(width: SizingModel, height: SizingModel, region: RegionModel) -> SizeModel {
    SizeModel {
        x: spec_resolve_axis(width, region.available.x),
        y: spec_resolve_axis(height, region.available.y),
    }
}

/// An axis expands when its request is explicit or the region demands it.
pub open spec fn spec_expands(s: SizingModel, flag: bool) -> bool {
    !(s is Auto) || flag
}

/// Whether the image is proportionally wider than the working region:
/// `width_px / height_px > working.x / working.y`, strictly. An unbounded
/// `working.y` makes the region ratio zero, so any image is wider; an
/// unbounded `working.x` makes the comparison false; a zero `working.y`
/// also makes it false, which the cross-multiplied form yields by itself.
pub open spec fn spec_wide(pxw: int, pxh: int, working: SizeModel) -> bool {
    match (working.x, working.y) {
        (LengthModel::Finite(a), LengthModel::Finite(b)) => pxw * a.den * b.num > pxh * (a.num * b.den),
        (LengthModel::Finite(_), LengthModel::Infinite) => true,
        (LengthModel::Infinite, _) => false,
    }
}

/// The box the final frame is resized into. When both axes expand it is the
/// working region. When the width expands, or the image is wide within a
/// finite width while the height does not expand, the width drives and the
/// height is capped by what the width implies. Otherwise a finite height
/// drives symmetrically. When nothing constrains the image, it is shown at
/// its intrinsic size, one length unit per pixel.
pub open spec fn spec_target(pxw: int, pxh: int, working: SizeModel, ex: bool, ey: bool) -> SizeModel {
    let wide = spec_wide(pxw, pxh, working);
    if ex && ey {
        working
    } else if ex || (!ey && wide && working.x is Finite) {
        SizeModel { x: working.x, y: working.y.min(working.x.scale(pxh, pxw)) }
    } else if working.y is Finite {
        SizeModel { x: working.x.min(working.y.scale(pxw, pxh)), y: working.y }
    } else {
        SizeModel {
            x: LengthModel::Finite(RatModel { num: pxw, den: 1 }),
            y: LengthModel::Finite(RatModel { num: pxh, den: 1 }),
        }
    }
}

/// The image's placed extent. `Stretch` fills the target exactly. `Cover`
/// and `Contain` preserve the pixel ratio: one target axis is matched and
/// the other derived, the driving axis chosen so that `Cover` reaches at
/// least the target on both axes and `Contain` at most.
pub open spec fn spec_placed(pxw: int, pxh: int, fit: ImageFit, wide: bool, target: SizeModel) -> SizeModel {
    if fit is Stretch {
        target
    } else if wide == (fit is Contain) {
        SizeModel { x: target.x, y: target.x.scale(pxh, pxw) }
    } else {
        SizeModel { x: target.y.scale(pxw, pxh), y: target.y }
    }
}

/// Clipping is needed exactly when the mode is `Cover` and the placed
/// extent strictly exceeds the target on at least one axis.
pub open spec fn spec_clip(fit: ImageFit, target: SizeModel, placed: SizeModel) -> bool {
    fit is Cover && (target.x.lt(placed.x) || target.y.lt(placed.y))
}

/// The full resolution, steps 1 through 6 composed.
pub open spec fn spec_resolve(
    pxw: int,
    pxh: int,
    width: SizingModel,
    height: SizingModel,
    region: RegionModel,
    fit: ImageFit,
) -> FitResultModel {
    let working = spec_working(width, height, region);
    let ex = spec_expands(width, region.expand_x);
    let ey = spec_expands(height, region.expand_y);
    let wide = spec_wide(pxw, pxh, working);
    let target = spec_target(pxw, pxh, working, ex, ey);
    let placed = spec_placed(pxw, pxh, fit, wide, target);
    FitResultModel { target, placed, clip: spec_clip(fit, target, placed) }
}

/// Scaling a bounded length by a ratio of input-sized integers keeps it
/// well-formed and multiplies its bound by the input bound.
pub proof fn lemma_scale_bound(l: LengthModel, b: int, num: u64, den: u64)
    requires
        l.wf(),
        l.bounded(b),
        0 <= b,
        1 <= num <= MAX_INPUT,
        1 <= den <= MAX_INPUT,
    ensures
        l.scale(num as int, den as int).wf(),
        l.scale(num as int, den as int).bounded(b * (MAX_INPUT as int)),
        (match l {
            LengthModel::Finite(a) => a.num * num <= b * (MAX_INPUT as int) && a.den * den <= b * (
            MAX_INPUT as int),
            LengthModel::Infinite => true,
        }),
{
    match l {
        LengthModel::Finite(a) => {
            lemma_rat_mul_bound(
                a,
                RatModel { num: num as int, den: den as int },
                b,
                MAX_INPUT as int,
            );
        },
        LengthModel::Infinite => {},
    }
}

/// Step 1 for one axis, executable form of [`spec_resolve_axis`].
pub fn resolve_axis(s: &AxisSizing, avail: &Length) -> (r: Length)
    requires
        s@.wf(),
        s@.bounded(MAX_INPUT as int),
        avail@.wf(),
        avail@.bounded(MAX_INPUT as int),
    ensures
        r@ == spec_resolve_axis(s@, avail@),
        r@.wf(),
        r@.bounded(MAX_WORKING as int),
{
    match s {
        AxisSizing::Auto => *avail,
        AxisSizing::Absolute(r) => Length::Finite(*r),
        AxisSizing::Fraction(f) => match avail {
            Length::Finite(a) => {
                proof {
                    lemma_rat_mul_bound(f@, a@, MAX_INPUT as int, MAX_INPUT as int);
                }
                Length::Finite(f.mul(a))
            },
            Length::Infinite => if f.num == 0 {
                Length::Finite(Rat::new(0, 1))
            } else {
                Length::Infinite
            },
        },
    }
}

/// Step 3, executable form of [`spec_wide`]. The finite comparison is an
/// exact cross-multiplication in 128-bit intermediates.
pub fn is_wide(pxw: u64, pxh: u64, working: &Size) -> (r: bool)
    requires
        1 <= pxw <= MAX_INPUT,
        1 <= pxh <= MAX_INPUT,
        working@.wf(),
        working@.bounded(MAX_WORKING as int),
    ensures
        r == spec_wide(pxw as int, pxh as int, working@),
{
    match (&working.x, &working.y) {
        (Length::Finite(a), Length::Finite(b)) => {
            proof {
                lemma_wide_products_fit(pxw, a.den, b.num);
                lemma_wide_products_fit(pxh, a.num, b.den);
            }
            (pxw as u128) * (a.den as u128) * (b.num as u128) > (pxh as u128) * ((a.num as u128)
                * (b.den as u128))
        },
        (Length::Finite(_), Length::Infinite) => true,
        (Length::Infinite, _) => false,
    }
}

/// The three-factor products of the wideness comparison fit 128 bits.
proof fn lemma_wide_products_fit(p: u64, c: u64, d: u64)
    by (nonlinear_arith)
    requires
        p <= MAX_INPUT,
        c <= MAX_WORKING,
        d <= MAX_WORKING,
    ensures
        (p as int) * (c as int) <= u128::MAX,
        (p as int) * (c as int) * (d as int) <= u128::MAX,
        (c as int) * (d as int) <= u128::MAX,
        (p as int) * ((c as int) * (d as int)) <= u128::MAX,
{
}

/// Compute the final geometry: the target box, the placed extent and the
/// clip decision, exactly as [`spec_resolve`] states them.
pub fn resolve(
    intrinsic: &IntrinsicSize,
    width: &AxisSizing,
    height: &AxisSizing,
    region: &Region,
    fit: ImageFit,
) -> (r: FitResult)
    requires
        intrinsic.wf(),
        width@.wf(),
        width@.bounded(MAX_INPUT as int),
        height@.wf(),
        height@.bounded(MAX_INPUT as int),
        region@.wf(),
        region@.bounded(MAX_INPUT as int),
    ensures
        r@ == spec_resolve(
            intrinsic.width_px as int,
            intrinsic.height_px as int,
            width@,
            height@,
            region@,
            fit,
        ),
        r@.target.wf(),
        r@.placed.wf(),
{
    let pxw = intrinsic.width_px;
    let pxh = intrinsic.height_px;
    let wx = resolve_axis(width, &region.available.x);
    let wy = resolve_axis(height, &region.available.y);
    let working = Size { x: wx, y: wy };
    let ex = width.is_explicit() || region.expand_x;
    let ey = height.is_explicit() || region.expand_y;
    let wide = is_wide(pxw, pxh, &working);

    let target = if ex && ey {
        working
    } else if ex || (!ey && wide && working.x.is_finite()) {
        proof {
            lemma_scale_bound(working.x@, MAX_WORKING as int, pxh, pxw);
        }
        Size { x: working.x, y: working.y.min(&working.x.scale(pxh, pxw)) }
    } else if working.y.is_finite() {
        proof {
            lemma_scale_bound(working.y@, MAX_WORKING as int, pxw, pxh);
        }
        Size { x: working.x.min(&working.y.scale(pxw, pxh)), y: working.y }
    } else {
        Size { x: Length::Finite(Rat::whole(pxw)), y: Length::Finite(Rat::whole(pxh)) }
    };

    proof {
        assert(target@ == spec_target(pxw as int, pxh as int, working@, ex, ey));
        assert(target@.wf() && target@.bounded(MAX_TARGET as int));
    }

    let placed = match fit {
        ImageFit::Stretch => target,
        ImageFit::Cover | ImageFit::Contain => {
            let contain = matches!(fit, ImageFit::Contain);
            if wide == contain {
                proof {
                    lemma_scale_bound(target.x@, MAX_TARGET as int, pxh, pxw);
                }
                Size { x: target.x, y: target.x.scale(pxh, pxw) }
            } else {
                proof {
                    lemma_scale_bound(target.y@, MAX_TARGET as int, pxw, pxh);
                }
                Size { x: target.y.scale(pxw, pxh), y: target.y }
            }
        },
    };

    let clip = matches!(fit, ImageFit::Cover) && (target.x.lt(&placed.x) || target.y.lt(
        &placed.y,
    ));

    FitResult { target, placed, clip }
}

/// An image to be laid out: its decoded intrinsic pixel dimensions and the
/// requested width and height.
#[derive(Clone, Copy, Debug, PartialEq, Eq, Structural)]
pub struct ImageNode {
    pub intrinsic: IntrinsicSize,
    pub width: AxisSizing,
    pub height: AxisSizing,
}

impl ImageNode {
    /// Valid intrinsic dimensions and bounded, well-formed requests.
    pub open spec fn wf(self) -> bool {
        self.intrinsic.wf() && self.width@.wf() && self.width@.bounded(MAX_INPUT as int)
            && self.height@.wf() && self.height@.bounded(MAX_INPUT as int)
    }

    pub fn new(intrinsic: IntrinsicSize, width: AxisSizing, height: AxisSizing) -> (r: ImageNode)
        requires
            intrinsic.wf(),
            width@.wf(),
            width@.bounded(MAX_INPUT as int),
            height@.wf(),
            height@.bounded(MAX_INPUT as int),
        ensures
            r == (ImageNode { intrinsic, width, height }),
            r.wf(),
    {
        ImageNode { intrinsic, width, height }
    }

    /// Lay the image out in the given region: compute the target box, the
    /// placed extent and the clip decision under the given fit mode.
    pub fn layout(&self, region: &Region, fit: ImageFit) -> (r: FitResult)
        requires
            self.wf(),
            region@.wf(),
            region@.bounded(MAX_INPUT as int),
        ensures
            r@ == spec_resolve(
                self.intrinsic.width_px as int,
                self.intrinsic.height_px as int,
                self.width@,
                self.height@,
                region@,
                fit,
            ),
            r@.target.wf(),
            r@.placed.wf(),
    {
        resolve(&self.intrinsic, &self.width, &self.height, region, fit)
    }
}

} // verus!
