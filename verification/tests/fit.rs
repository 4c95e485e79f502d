use image_fit::AxisSizing;
use image_fit::FitResult;
use image_fit::ImageFit;
use image_fit::ImageNode;
use image_fit::IntrinsicSize;
use image_fit::Length;
use image_fit::Rat;
use image_fit::Region;
use image_fit::Size;
use image_fit::resolve;

fn fin(num: u64, den: u64) -> Length {
    Length::Finite(Rat { num, den })
}

fn region(x: Length, y: Length, expand_x: bool, expand_y: bool) -> Region {
    Region { available: Size { x, y }, expand_x, expand_y }
}

fn run(
    pxw: u64,
    pxh: u64,
    width: AxisSizing,
    height: AxisSizing,
    reg: Region,
    fit: ImageFit,
) -> FitResult {
    resolve(&IntrinsicSize { width_px: pxw, height_px: pxh }, &width, &height, &reg, fit)
}

fn assert_len(actual: Length, expected: Length) {
    assert!(actual.eq_len(&expected), "{:?} != {:?}", actual, expected);
}

#[test]
fn wide_image_in_square_region_cover() {
    // Intrinsic 200x100 in a finite 400x400 region, no expansion: the image
    // is wider than the region, the width drives, the height is capped at
    // 200, and nothing overflows, so no clip.
    let r = run(
        200,
        100,
        AxisSizing::Auto,
        AxisSizing::Auto,
        region(fin(400, 1), fin(400, 1), false, false),
        ImageFit::Cover,
    );
    assert_len(r.target.x, fin(400, 1));
    assert_len(r.target.y, fin(200, 1));
    assert_len(r.placed.x, fin(400, 1));
    assert_len(r.placed.y, fin(200, 1));
    assert!(!r.clip);
}

#[test]
fn tall_image_expand_both_cover_clips() {
    // Intrinsic 100x200 with both axes expanding: the target is the full
    // region, the placed height overshoots to 800 and is clipped.
    let r = run(
        100,
        200,
        AxisSizing::Auto,
        AxisSizing::Auto,
        region(fin(400, 1), fin(400, 1), true, true),
        ImageFit::Cover,
    );
    assert_len(r.target.x, fin(400, 1));
    assert_len(r.target.y, fin(400, 1));
    assert_len(r.placed.x, fin(400, 1));
    assert_len(r.placed.y, fin(800, 1));
    assert!(r.clip);
}

#[test]
fn square_image_unbounded_region_contain_native() {
    // Intrinsic 100x100 in a fully unbounded region without expansion: the
    // image keeps its native size; the ratio tie makes `wide` false; no
    // clip, since clipping belongs to cover alone.
    let r = run(
        100,
        100,
        AxisSizing::Auto,
        AxisSizing::Auto,
        region(Length::Infinite, Length::Infinite, false, false),
        ImageFit::Contain,
    );
    assert_len(r.target.x, fin(100, 1));
    assert_len(r.target.y, fin(100, 1));
    assert_len(r.placed.x, fin(100, 1));
    assert_len(r.placed.y, fin(100, 1));
    assert!(!r.clip);
}

#[test]
fn stretch_fills_target_exactly() {
    let r = run(
        123,
        77,
        AxisSizing::Auto,
        AxisSizing::Auto,
        region(fin(500, 1), fin(300, 1), false, true),
        ImageFit::Stretch,
    );
    assert_eq!(r.placed, r.target);
    assert!(!r.clip);
}

#[test]
fn both_expand_fills_region() {
    let r = run(
        10,
        30,
        AxisSizing::Auto,
        AxisSizing::Auto,
        region(fin(250, 1), fin(125, 1), true, true),
        ImageFit::Contain,
    );
    assert_len(r.target.x, fin(250, 1));
    assert_len(r.target.y, fin(125, 1));
    // Contain keeps the placed extent within the target: the tall image
    // fits the height and underfills the width.
    assert_len(r.placed.y, fin(125, 1));
    assert_len(r.placed.x, fin(125, 3));
    assert!(!r.clip);
}

#[test]
fn contain_fits_within_target() {
    // Wide image under contain: full width, reduced height.
    let r = run(
        200,
        100,
        AxisSizing::Auto,
        AxisSizing::Auto,
        region(fin(400, 1), fin(400, 1), true, true),
        ImageFit::Contain,
    );
    assert_len(r.target.x, fin(400, 1));
    assert_len(r.target.y, fin(400, 1));
    assert_len(r.placed.x, fin(400, 1));
    assert_len(r.placed.y, fin(200, 1));
    assert!(!r.clip);
}

#[test]
fn fraction_resolves_against_region() {
    // width: 4/5 of a 400-unit region, height auto; the explicit width
    // expands that axis, so the width drives the target.
    let r = run(
        100,
        100,
        AxisSizing::Fraction(Rat { num: 4, den: 5 }),
        AxisSizing::Auto,
        region(fin(400, 1), fin(400, 1), false, false),
        ImageFit::Cover,
    );
    assert_len(r.target.x, fin(320, 1));
    assert_len(r.target.y, fin(320, 1));
    assert_len(r.placed.x, fin(320, 1));
    assert_len(r.placed.y, fin(320, 1));
    assert!(!r.clip);
}

#[test]
fn absolute_request_overrides_region() {
    let r = run(
        100,
        50,
        AxisSizing::Absolute(Rat { num: 120, den: 1 }),
        AxisSizing::Auto,
        region(fin(400, 1), fin(400, 1), false, false),
        ImageFit::Cover,
    );
    // Width expands by being explicit: target x is the requested 120; the
    // implied height 60 stays under the region's 400.
    assert_len(r.target.x, fin(120, 1));
    assert_len(r.target.y, fin(60, 1));
    assert_len(r.placed.x, fin(120, 1));
    assert_len(r.placed.y, fin(60, 1));
    assert!(!r.clip);
}

#[test]
fn positive_fraction_of_unbounded_axis_is_unbounded() {
    // A positive fraction of an unbounded extent is unbounded, and being
    // explicit it expands its axis: the target keeps the unbounded width,
    // the height is capped by the region, and cover must clip, since the
    // placed extent derived from an unbounded width is unbounded too.
    let r = run(
        100,
        100,
        AxisSizing::Fraction(Rat { num: 1, den: 2 }),
        AxisSizing::Auto,
        region(Length::Infinite, fin(200, 1), false, false),
        ImageFit::Cover,
    );
    assert_eq!(r.target.x, Length::Infinite);
    assert_len(r.target.y, fin(200, 1));
    assert_eq!(r.placed.x, Length::Infinite);
    assert_eq!(r.placed.y, Length::Infinite);
    assert!(r.clip);
}

#[test]
fn zero_fraction_of_unbounded_axis_is_zero() {
    let r = run(
        100,
        100,
        AxisSizing::Fraction(Rat { num: 0, den: 1 }),
        AxisSizing::Auto,
        region(Length::Infinite, fin(200, 1), false, false),
        ImageFit::Cover,
    );
    // The requested width resolves to zero; being explicit, it expands the
    // axis and drives a zero-width target.
    assert_len(r.target.x, fin(0, 1));
    assert_len(r.placed.x, fin(0, 1));
}

#[test]
fn unbounded_width_finite_height_is_not_wide() {
    // Unbounded region width: the image never counts as wide; the finite
    // height drives and the width implied by the height is used.
    let r = run(
        300,
        100,
        AxisSizing::Auto,
        AxisSizing::Auto,
        region(Length::Infinite, fin(100, 1), false, false),
        ImageFit::Cover,
    );
    assert_len(r.target.x, fin(300, 1));
    assert_len(r.target.y, fin(100, 1));
    assert_len(r.placed.x, fin(300, 1));
    assert_len(r.placed.y, fin(100, 1));
    assert!(!r.clip);
}

#[test]
fn finite_width_unbounded_height_counts_as_wide() {
    // Unbounded region height makes the region ratio zero, so any image is
    // wider; the finite width drives and the height is the implied one.
    let r = run(
        100,
        300,
        AxisSizing::Auto,
        AxisSizing::Auto,
        region(fin(100, 1), Length::Infinite, false, false),
        ImageFit::Cover,
    );
    assert_len(r.target.x, fin(100, 1));
    assert_len(r.target.y, fin(300, 1));
    assert_len(r.placed.x, fin(100, 1));
    assert_len(r.placed.y, fin(300, 1));
    assert!(!r.clip);
}

#[test]
fn ratio_tie_falls_to_height_driven_branch() {
    // Equal pixel and region ratios: `wide` is false by strictness, the
    // height-driven branch runs, and the result fills the region exactly.
    let r = run(
        200,
        100,
        AxisSizing::Auto,
        AxisSizing::Auto,
        region(fin(600, 1), fin(300, 1), false, false),
        ImageFit::Cover,
    );
    assert_len(r.target.x, fin(600, 1));
    assert_len(r.target.y, fin(300, 1));
    assert_len(r.placed.x, fin(600, 1));
    assert_len(r.placed.y, fin(300, 1));
    assert!(!r.clip);
}

#[test]
fn zero_height_region_is_not_wide() {
    // A zero region height gives an unbounded region ratio, so the image is
    // not wider; the zero height drives a zero target.
    let r = run(
        200,
        100,
        AxisSizing::Auto,
        AxisSizing::Auto,
        region(fin(400, 1), fin(0, 1), false, false),
        ImageFit::Cover,
    );
    assert_len(r.target.y, fin(0, 1));
    assert_len(r.target.x, fin(0, 1));
    assert_len(r.placed.y, fin(0, 1));
    assert_len(r.placed.x, fin(0, 1));
    assert!(!r.clip);
}

#[test]
fn expand_width_only_caps_height_by_implied() {
    // Tall image, width expands: width drives, the implied height 800 is
    // capped at the region's 400, and cover overflows the height.
    let r = run(
        100,
        200,
        AxisSizing::Auto,
        AxisSizing::Auto,
        region(fin(400, 1), fin(400, 1), true, false),
        ImageFit::Cover,
    );
    assert_len(r.target.x, fin(400, 1));
    assert_len(r.target.y, fin(400, 1));
    assert_len(r.placed.x, fin(400, 1));
    assert_len(r.placed.y, fin(800, 1));
    assert!(r.clip);
}

#[test]
fn default_fit_mode_is_cover() {
    assert_eq!(ImageFit::default(), ImageFit::Cover);
}

#[test]
fn aspect_ratio_is_preserved_exactly() {
    // Cover on a 7:3 image: whatever drives, the placed extent keeps the
    // exact pixel ratio, shown by cross-multiplication on the rationals.
    let r = run(
        700,
        300,
        AxisSizing::Auto,
        AxisSizing::Auto,
        region(fin(500, 1), fin(400, 1), false, false),
        ImageFit::Cover,
    );
    let (px, py) = match (r.placed.x, r.placed.y) {
        (Length::Finite(a), Length::Finite(b)) => (a, b),
        other => panic!("placed extent not finite: {:?}", other),
    };
    assert_eq!(
        (px.num as u128) * (py.den as u128) * 300,
        (py.num as u128) * (px.den as u128) * 700
    );
}

#[test]
fn node_layout_matches_free_resolver() {
    let node = ImageNode::new(
        IntrinsicSize::new(200, 100),
        AxisSizing::Auto,
        AxisSizing::Auto,
    );
    let reg = region(fin(400, 1), fin(400, 1), false, false);
    let a = node.layout(&reg, ImageFit::Cover);
    let b = run(200, 100, AxisSizing::Auto, AxisSizing::Auto, reg, ImageFit::Cover);
    assert_eq!(a, b);
}

#[test]
fn fractional_region_extents_stay_exact() {
    // Region extents given as non-integral rationals: 301/2 x 400/3. The
    // image (3:2) is wider than the region (451/1200... i.e. 150.5 / 133.33),
    // so the width drives: height implied = 150.5 * 2/3 = 301/3 > 400/3?
    // No: 301/3 < 400/3, so the implied height stands uncapped.
    let r = run(
        300,
        200,
        AxisSizing::Auto,
        AxisSizing::Auto,
        region(fin(301, 2), fin(400, 3), false, false),
        ImageFit::Cover,
    );
    assert_len(r.target.x, fin(301, 2));
    assert_len(r.target.y, fin(301, 3));
    assert_len(r.placed.x, fin(301, 2));
    assert_len(r.placed.y, fin(301, 3));
    assert!(!r.clip);
}
