//! Laws of the resolver.
//!
//! Public proof functions stating, over the mathematical model, what holds
//! of [`crate::fit::spec_resolve`] for every valid input: stretch fills the
//! target exactly, both-expanding inputs fill the working region, a fully
//! unconstrained image keeps its native size, cover and contain preserve the
//! pixel aspect ratio, cover reaches the target on both axes, and contain
//! stays within it.

use vstd::prelude::*;

use crate::fit::spec_expands;
use crate::fit::spec_placed;
use crate::fit::spec_resolve;
use crate::fit::spec_target;
use crate::fit::spec_wide;
use crate::fit::spec_working;
use crate::fit::ImageFit;
use crate::fit::RegionModel;
use crate::fit::SizingModel;
use crate::geom::LengthModel;
use crate::geom::SizeModel;
use crate::rat::lemma_rat_le_trans;
use crate::rat::RatModel;

verus! {

/// Multiplying well-formed rationals keeps well-formedness.
proof fn lemma_rat_mul_wf(a: RatModel, b: RatModel)
    by (nonlinear_arith)
    requires
        a.wf(),
        b.wf(),
    ensures
        a.mul(b).wf(),
{
}

/// The cross-multiplied wideness test, related to the exact comparisons it
/// stands for: when the image is not wider, the height implied by the full
/// width stays at or above the region height (and the width implied by the
/// full height at or above the region width reads the other way around);
/// when it is wider, the mirrored bounds hold.
proof fn lemma_wide_cross(a: RatModel, b: RatModel, n: int, d: int)
    by (nonlinear_arith)
    requires
        a.wf(),
        b.wf(),
        1 <= n,
        1 <= d,
    ensures
        !(n * a.den * b.num > d * (a.num * b.den)) ==> b.le(a.mul(RatModel { num: d, den: n }))
            && b.mul(RatModel { num: n, den: d }).le(a),
        (n * a.den * b.num > d * (a.num * b.den)) ==> a.le(b.mul(RatModel { num: n, den: d }))
            && a.mul(RatModel { num: d, den: n }).le(b),
{
}

/// Scaling by a ratio and scaling back by its inverse gives the same value.
proof fn lemma_rat_round_trip(b: RatModel, n: int, d: int)
    by (nonlinear_arith)
    requires
        b.wf(),
        1 <= n,
        1 <= d,
    ensures
        b.le(b.mul(RatModel { num: n, den: d }).mul(RatModel { num: d, den: n })),
        b.mul(RatModel { num: n, den: d }).mul(RatModel { num: d, den: n }).le(b),
{
}

/// Scaling by a fixed positive ratio preserves order.
proof fn lemma_rat_scale_mono(x: RatModel, y: RatModel, n: int, d: int)
    by (nonlinear_arith)
    requires
        x.wf(),
        y.wf(),
        1 <= n,
        1 <= d,
        x.le(y),
    ensures
        x.mul(RatModel { num: n, den: d }).le(y.mul(RatModel { num: n, den: d })),
{
}

/// `<=` on lengths is reflexive.
proof fn lemma_len_le_refl(l: LengthModel)
    requires
        l.wf(),
    ensures
        l.le(l),
{
}

/// The minimum lies at or below both arguments and is one of them.
proof fn lemma_len_min_le(a: LengthModel, b: LengthModel)
    requires
        a.wf(),
        b.wf(),
    ensures
        a.min(b).le(a),
        a.min(b).le(b),
        a.min(b) == a || a.min(b) == b,
        a.min(b).wf(),
{
}

/// A common lower bound lies at or below the minimum.
proof fn lemma_len_min_ge(c: LengthModel, a: LengthModel, b: LengthModel)
    requires
        c.wf(),
        a.wf(),
        b.wf(),
        c.le(a),
        c.le(b),
    ensures
        c.le(a.min(b)),
{
}

/// `<=` on lengths is transitive.
proof fn lemma_len_le_trans(a: LengthModel, b: LengthModel, c: LengthModel)
    requires
        a.wf(),
        b.wf(),
        c.wf(),
        a.le(b),
        b.le(c),
    ensures
        a.le(c),
{
    match (a, b, c) {
        (LengthModel::Finite(x), LengthModel::Finite(y), LengthModel::Finite(z)) => {
            lemma_rat_le_trans(x, y, z);
        },
        _ => {},
    }
}

/// Scaling by a fixed positive ratio preserves order on lengths.
proof fn lemma_len_scale_mono(x: LengthModel, y: LengthModel, n: int, d: int)
    requires
        x.wf(),
        y.wf(),
        1 <= n,
        1 <= d,
        x.le(y),
    ensures
        x.scale(n, d).le(y.scale(n, d)),
        x.scale(n, d).wf(),
{
    match (x, y) {
        (LengthModel::Finite(a), LengthModel::Finite(b)) => {
            lemma_rat_scale_mono(a, b, n, d);
            lemma_rat_mul_wf(a, RatModel { num: n, den: d });
        },
        (LengthModel::Finite(a), LengthModel::Infinite) => {
            lemma_rat_mul_wf(a, RatModel { num: n, den: d });
        },
        _ => {},
    }
}

/// Scaling by a ratio and scaling back by its inverse gives the same length.
proof fn lemma_len_round_trip(l: LengthModel, n: int, d: int)
    requires
        l.wf(),
        1 <= n,
        1 <= d,
    ensures
        l.le(l.scale(n, d).scale(d, n)),
        l.scale(n, d).scale(d, n).le(l),
        l.scale(n, d).wf(),
        l.scale(n, d).scale(d, n).wf(),
{
    match l {
        LengthModel::Finite(b) => {
            lemma_rat_round_trip(b, n, d);
            lemma_rat_mul_wf(b, RatModel { num: n, den: d });
            lemma_rat_mul_wf(b.mul(RatModel { num: n, den: d }), RatModel { num: d, den: n });
        },
        LengthModel::Infinite => {},
    }
}

/// Resolving a well-formed request against a well-formed extent gives a
/// well-formed working extent.
proof fn lemma_resolve_axis_wf(s: SizingModel, avail: LengthModel)
    requires
        s.wf(),
        avail.wf(),
    ensures
        crate::fit::spec_resolve_axis(s, avail).wf(),
{
    match s {
        SizingModel::Fraction(f) => {
            match avail {
                LengthModel::Finite(a) => {
                    lemma_rat_mul_wf(f, a);
                },
                LengthModel::Infinite => {},
            }
        },
        _ => {},
    }
}

/// The working region of well-formed inputs is well-formed.
pub proof fn lemma_working_wf(width: SizingModel, height: SizingModel, region: RegionModel)
    requires
        width.wf(),
        height.wf(),
        region.wf(),
    ensures
        spec_working(width, height, region).wf(),
{
    lemma_resolve_axis_wf(width, region.available.x);
    lemma_resolve_axis_wf(height, region.available.y);
}

/// Stretch fills the target exactly: with `fit == Stretch` the placed extent
/// equals the target box, and nothing is ever clipped.
pub proof fn lemma_stretch_fills(
    pxw: int,
    pxh: int,
    width: SizingModel,
    height: SizingModel,
    region: RegionModel,
)
    ensures
        spec_resolve(pxw, pxh, width, height, region, ImageFit::Stretch).placed == spec_resolve(
            pxw,
            pxh,
            width,
            height,
            region,
            ImageFit::Stretch,
        ).target,
        !spec_resolve(pxw, pxh, width, height, region, ImageFit::Stretch).clip,
{
}

/// Both-expand fills the region: when both axes expand, the target box is
/// exactly the working region.
pub proof fn lemma_both_expand_fills(
    pxw: int,
    pxh: int,
    width: SizingModel,
    height: SizingModel,
    region: RegionModel,
    fit: ImageFit,
)
    requires
        spec_expands(width, region.expand_x),
        spec_expands(height, region.expand_y),
    ensures
        spec_resolve(pxw, pxh, width, height, region, fit).target == spec_working(
            width,
            height,
            region,
        ),
{
}

/// Unbounded region without expansion shows the image at its native size:
/// with both region axes unbounded, no expansion flag set and no requested
/// size, the target is the intrinsic pixel size, one length unit per pixel.
pub proof fn lemma_unbounded_native_size(
    pxw: int,
    pxh: int,
    width: SizingModel,
    height: SizingModel,
    region: RegionModel,
    fit: ImageFit,
)
    requires
        region.available.x is Infinite,
        region.available.y is Infinite,
        !region.expand_x,
        !region.expand_y,
        width is Auto,
        height is Auto,
    ensures
        spec_resolve(pxw, pxh, width, height, region, fit).target == (SizeModel {
            x: LengthModel::Finite(RatModel { num: pxw, den: 1 }),
            y: LengthModel::Finite(RatModel { num: pxh, den: 1 }),
        }),
{
}

/// Core of the covering law, over an arbitrary well-formed working region:
/// under `Cover` the placed extent reaches the target on both axes.
proof fn lemma_cover_covers_core(pxw: int, pxh: int, w: SizeModel, ex: bool, ey: bool)
    requires
        1 <= pxw,
        1 <= pxh,
        w.wf(),
    ensures
        ({
            let wide = spec_wide(pxw, pxh, w);
            let target = spec_target(pxw, pxh, w, ex, ey);
            let placed = spec_placed(pxw, pxh, ImageFit::Cover, wide, target);
            target.wf() && placed.wf() && target.x.le(placed.x) && target.y.le(placed.y)
        }),
{
    let wide = spec_wide(pxw, pxh, w);
    let target = spec_target(pxw, pxh, w, ex, ey);
    let placed = spec_placed(pxw, pxh, ImageFit::Cover, wide, target);
    match w.x {
        LengthModel::Finite(a) => lemma_rat_mul_wf(a, RatModel { num: pxh, den: pxw }),
        LengthModel::Infinite => {},
    }
    match w.y {
        LengthModel::Finite(b) => lemma_rat_mul_wf(b, RatModel { num: pxw, den: pxh }),
        LengthModel::Infinite => {},
    }
    lemma_len_min_le(w.y, w.x.scale(pxh, pxw));
    lemma_len_min_le(w.x, w.y.scale(pxw, pxh));
    match target.x {
        LengthModel::Finite(t) => lemma_rat_mul_wf(t, RatModel { num: pxh, den: pxw }),
        LengthModel::Infinite => {},
    }
    match target.y {
        LengthModel::Finite(t) => lemma_rat_mul_wf(t, RatModel { num: pxw, den: pxh }),
        LengthModel::Infinite => {},
    }
    if !wide {
        // Width-driven: placed == (target.x, target.x scaled by pxh/pxw).
        lemma_len_le_refl(target.x);
        if ex && ey {
            match (w.x, w.y) {
                (LengthModel::Finite(a), LengthModel::Finite(b)) => {
                    lemma_wide_cross(a, b, pxw, pxh);
                },
                _ => {},
            }
        } else if ex || (!ey && wide && w.x is Finite) {
            // !wide forces ex; the capped height is at most the implied one.
        } else if w.y is Finite {
            match (w.x, w.y) {
                (LengthModel::Finite(a), LengthModel::Finite(b)) => {
                    lemma_wide_cross(a, b, pxw, pxh);
                    lemma_rat_round_trip(b, pxw, pxh);
                },
                (LengthModel::Infinite, LengthModel::Finite(b)) => {
                    lemma_rat_round_trip(b, pxw, pxh);
                },
                _ => {},
            }
        } else {
            assert(pxh * (1 * pxw) <= (pxw * pxh) * 1) by (nonlinear_arith);
        }
    } else {
        // Height-driven: placed == (target.y scaled by pxw/pxh, target.y).
        lemma_len_le_refl(target.y);
        if ex && ey {
            match (w.x, w.y) {
                (LengthModel::Finite(a), LengthModel::Finite(b)) => {
                    lemma_wide_cross(a, b, pxw, pxh);
                },
                _ => {},
            }
        } else if ex || (!ey && wide && w.x is Finite) {
            match (w.x, w.y) {
                (LengthModel::Finite(a), LengthModel::Finite(b)) => {
                    lemma_wide_cross(a, b, pxw, pxh);
                    lemma_len_round_trip(w.x, pxh, pxw);
                },
                (LengthModel::Finite(a), LengthModel::Infinite) => {
                    lemma_len_round_trip(w.x, pxh, pxw);
                },
                _ => {},
            }
        } else if w.y is Finite {
            // The driving height is exactly the one the minimum was taken of.
        } else {
            assert(pxw * pxh <= (pxh * pxw) * 1) by (nonlinear_arith);
        }
    }
}

/// Core of the containment law, over an arbitrary well-formed working
/// region: under `Contain` the placed extent stays within the target on
/// both axes.
proof fn lemma_contain_fits_core(pxw: int, pxh: int, w: SizeModel, ex: bool, ey: bool)
    requires
        1 <= pxw,
        1 <= pxh,
        w.wf(),
    ensures
        ({
            let wide = spec_wide(pxw, pxh, w);
            let target = spec_target(pxw, pxh, w, ex, ey);
            let placed = spec_placed(pxw, pxh, ImageFit::Contain, wide, target);
            target.wf() && placed.wf() && placed.x.le(target.x) && placed.y.le(target.y)
        }),
{
    let wide = spec_wide(pxw, pxh, w);
    let target = spec_target(pxw, pxh, w, ex, ey);
    let placed = spec_placed(pxw, pxh, ImageFit::Contain, wide, target);
    match w.x {
        LengthModel::Finite(a) => lemma_rat_mul_wf(a, RatModel { num: pxh, den: pxw }),
        LengthModel::Infinite => {},
    }
    match w.y {
        LengthModel::Finite(b) => lemma_rat_mul_wf(b, RatModel { num: pxw, den: pxh }),
        LengthModel::Infinite => {},
    }
    lemma_len_min_le(w.y, w.x.scale(pxh, pxw));
    lemma_len_min_le(w.x, w.y.scale(pxw, pxh));
    match target.x {
        LengthModel::Finite(t) => lemma_rat_mul_wf(t, RatModel { num: pxh, den: pxw }),
        LengthModel::Infinite => {},
    }
    match target.y {
        LengthModel::Finite(t) => lemma_rat_mul_wf(t, RatModel { num: pxw, den: pxh }),
        LengthModel::Infinite => {},
    }
    if wide {
        // Width-driven: placed == (target.x, target.x scaled by pxh/pxw).
        lemma_len_le_refl(target.x);
        if ex && ey {
            match (w.x, w.y) {
                (LengthModel::Finite(a), LengthModel::Finite(b)) => {
                    lemma_wide_cross(a, b, pxw, pxh);
                },
                _ => {},
            }
        } else if ex || (!ey && wide && w.x is Finite) {
            match (w.x, w.y) {
                (LengthModel::Finite(a), LengthModel::Finite(b)) => {
                    lemma_wide_cross(a, b, pxw, pxh);
                    lemma_len_le_refl(w.x.scale(pxh, pxw));
                    lemma_len_min_ge(w.x.scale(pxh, pxw), w.y, w.x.scale(pxh, pxw));
                },
                (LengthModel::Finite(a), LengthModel::Infinite) => {
                    lemma_len_le_refl(w.x.scale(pxh, pxw));
                    lemma_len_min_ge(w.x.scale(pxh, pxw), w.y, w.x.scale(pxh, pxw));
                },
                _ => {},
            }
        } else if w.y is Finite {
            lemma_len_scale_mono(target.x, w.y.scale(pxw, pxh), pxh, pxw);
            lemma_len_round_trip(w.y, pxw, pxh);
            lemma_len_le_trans(target.x.scale(pxh, pxw), w.y.scale(pxw, pxh).scale(pxh, pxw), w.y);
        } else {
            assert((pxw * pxh) * 1 <= pxh * (1 * pxw)) by (nonlinear_arith);
        }
    } else {
        // Height-driven: placed == (target.y scaled by pxw/pxh, target.y).
        lemma_len_le_refl(target.y);
        if ex && ey {
            match (w.x, w.y) {
                (LengthModel::Finite(a), LengthModel::Finite(b)) => {
                    lemma_wide_cross(a, b, pxw, pxh);
                },
                _ => {},
            }
        } else if ex || (!ey && wide && w.x is Finite) {
            match w.x {
                LengthModel::Infinite => {},
                LengthModel::Finite(a) => {
                    lemma_len_scale_mono(target.y, w.x.scale(pxh, pxw), pxw, pxh);
                    lemma_len_round_trip(w.x, pxh, pxw);
                    lemma_len_le_trans(
                        target.y.scale(pxw, pxh),
                        w.x.scale(pxh, pxw).scale(pxw, pxh),
                        w.x,
                    );
                },
            }
        } else if w.y is Finite {
            match (w.x, w.y) {
                (LengthModel::Finite(a), LengthModel::Finite(b)) => {
                    lemma_wide_cross(a, b, pxw, pxh);
                    lemma_len_le_refl(w.y.scale(pxw, pxh));
                    lemma_len_min_ge(w.y.scale(pxw, pxh), w.x, w.y.scale(pxw, pxh));
                },
                (LengthModel::Infinite, LengthModel::Finite(b)) => {
                    lemma_len_le_refl(w.y.scale(pxw, pxh));
                    lemma_len_min_ge(w.y.scale(pxw, pxh), w.x, w.y.scale(pxw, pxh));
                },
                _ => {},
            }
        } else {
            assert(pxh * (1 * pxw) <= (pxw * pxh) * 1) by (nonlinear_arith);
        }
    }
}

/// Cover covers: under `Cover` the placed extent reaches the target box on
/// both axes, and clipping is signalled exactly when it strictly exceeds the
/// target on at least one axis.
pub proof fn lemma_cover_covers(
    pxw: int,
    pxh: int,
    width: SizingModel,
    height: SizingModel,
    region: RegionModel,
)
    requires
        1 <= pxw,
        1 <= pxh,
        width.wf(),
        height.wf(),
        region.wf(),
    ensures
        ({
            let r = spec_resolve(pxw, pxh, width, height, region, ImageFit::Cover);
            r.target.x.le(r.placed.x) && r.target.y.le(r.placed.y) && r.clip == (r.target.x.lt(
                r.placed.x,
            ) || r.target.y.lt(r.placed.y))
        }),
{
    lemma_working_wf(width, height, region);
    lemma_cover_covers_core(
        pxw,
        pxh,
        spec_working(width, height, region),
        spec_expands(width, region.expand_x),
        spec_expands(height, region.expand_y),
    );
}

/// Contain fits: under `Contain` the placed extent stays within the target
/// box on both axes, and nothing is ever clipped.
pub proof fn lemma_contain_fits(
    pxw: int,
    pxh: int,
    width: SizingModel,
    height: SizingModel,
    region: RegionModel,
)
    requires
        1 <= pxw,
        1 <= pxh,
        width.wf(),
        height.wf(),
        region.wf(),
    ensures
        ({
            let r = spec_resolve(pxw, pxh, width, height, region, ImageFit::Contain);
            r.placed.x.le(r.target.x) && r.placed.y.le(r.target.y) && !r.clip
        }),
{
    lemma_working_wf(width, height, region);
    lemma_contain_fits_core(
        pxw,
        pxh,
        spec_working(width, height, region),
        spec_expands(width, region.expand_x),
        spec_expands(height, region.expand_y),
    );
}

/// Whether a placed extent has the pixel ratio `pxw / pxh`: both axes are
/// finite and cross-multiplication makes `p.x / p.y == pxw / pxh` exact.
pub open spec fn ratio_matches(p: SizeModel, pxw: int, pxh: int) -> bool {
    match (p.x, p.y) {
        (LengthModel::Finite(a), LengthModel::Finite(b)) => a.num * b.den * pxh == b.num * a.den
            * pxw,
        _ => false,
    }
}

/// Aspect preservation: under `Cover` and `Contain`, whenever the placed
/// extent is finite on both axes it has exactly the intrinsic pixel ratio.
/// (A placed extent is infinite only where the driving target axis is
/// unbounded; no finite ratio can be stated there.)
pub proof fn lemma_aspect_preserved(
    pxw: int,
    pxh: int,
    width: SizingModel,
    height: SizingModel,
    region: RegionModel,
    fit: ImageFit,
)
    requires
        1 <= pxw,
        1 <= pxh,
        !(fit is Stretch),
    ensures
        ({
            let placed = spec_resolve(pxw, pxh, width, height, region, fit).placed;
            placed.x is Finite && placed.y is Finite ==> ratio_matches(placed, pxw, pxh)
        }),
{
    let working = spec_working(width, height, region);
    let ex = spec_expands(width, region.expand_x);
    let ey = spec_expands(height, region.expand_y);
    let wide = spec_wide(pxw, pxh, working);
    let target = spec_target(pxw, pxh, working, ex, ey);
    let placed = spec_placed(pxw, pxh, fit, wide, target);
    if wide == (fit is Contain) {
        match target.x {
            LengthModel::Finite(t) => {
                assert(t.num * (t.den * pxw) * pxh == (t.num * pxh) * t.den * pxw)
                    by (nonlinear_arith);
            },
            LengthModel::Infinite => {},
        }
    } else {
        match target.y {
            LengthModel::Finite(t) => {
                assert((t.num * pxw) * t.den * pxh == t.num * (t.den * pxh) * pxw)
                    by (nonlinear_arith);
            },
            LengthModel::Infinite => {},
        }
    }
}

} // verus!
