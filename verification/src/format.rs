//! Image format detection and fit-mode configuration.
//!
//! A file's extension, compared without regard to ASCII case, selects the
//! image format from a fixed table: `png`, `jpg`/`jpeg`, `gif` for the
//! raster family and `svg`/`svgz` for the vector family; anything else is
//! unrecognized. A fit mode is selected by its exact configuration name:
//! `cover`, `contain` or `stretch`.

use vstd::prelude::*;
use vstd::string::StringSliceAdditionalSpecFns;

use crate::fit::ImageFit;

verus! {

/// A raster image format.
#[derive(Clone, Copy, Debug, PartialEq, Eq, Structural)]
pub enum RasterFormat {
    Png,
    Jpg,
    Gif,
}

/// A vector graphics format.
#[derive(Clone, Copy, Debug, PartialEq, Eq, Structural)]
pub enum VectorFormat {
    Svg,
}

/// A recognized image format.
#[derive(Clone, Copy, Debug, PartialEq, Eq, Structural)]
pub enum ImageFormat {
    Raster(RasterFormat),
    Vector(VectorFormat),
}

/// ASCII lowercasing of one byte.
pub open spec fn lower_byte(b: u8) -> u8 {
    if 65 <= b && b <= 90 {
        (b + 32) as u8
    } else {
        b
    }
}

/// ASCII lowercasing of a byte sequence.
pub open spec fn lower_seq(s: Seq<u8>) -> Seq<u8> {
    s.map_values(|b: u8| lower_byte(b))
}

/// The format a file extension selects, compared in ASCII lower case.
pub open spec fn spec_format_of(ext: Seq<u8>) -> Option<ImageFormat> {
    let l = lower_seq(ext);
    if l == seq![112u8, 110u8, 103u8] {  // png
        Some(ImageFormat::Raster(RasterFormat::Png))
    } else if l == seq![106u8, 112u8, 103u8] || l == seq![106u8, 112u8, 101u8, 103u8] {  // jpg, jpeg
        Some(ImageFormat::Raster(RasterFormat::Jpg))
    } else if l == seq![103u8, 105u8, 102u8] {  // gif
        Some(ImageFormat::Raster(RasterFormat::Gif))
    } else if l == seq![115u8, 118u8, 103u8] || l == seq![115u8, 118u8, 103u8, 122u8] {  // svg, svgz
        Some(ImageFormat::Vector(VectorFormat::Svg))
    } else {
        None
    }
}

/// The fit mode a configuration name selects, by exact match.
pub open spec fn spec_fit_of(name: Seq<u8>) -> Option<ImageFit> {
    if name == seq![99u8, 111u8, 118u8, 101u8, 114u8] {  // cover
        Some(ImageFit::Cover)
    } else if name == seq![99u8, 111u8, 110u8, 116u8, 97u8, 105u8, 110u8] {  // contain
        Some(ImageFit::Contain)
    } else if name == seq![115u8, 116u8, 114u8, 101u8, 116u8, 99u8, 104u8] {  // stretch
        Some(ImageFit::Stretch)
    } else {
        None
    }
}

/// Exact comparison of two byte slices.
fn bytes_match(s: &[u8], t: &[u8]) -> (r: bool)
    ensures
        r == (s@ == t@),
{
    if s.len() != t.len() {
        return false;
    }
    let mut i: usize = 0;
    while i < s.len()
        invariant
            i <= s@.len(),
            s@.len() == t@.len(),
            forall|j: int| 0 <= j < i ==> s@[j] == t@[j],
        decreases s@.len() - i,
    {
        if s[i] != t[i] {
            return false;
        }
        i += 1;
    }
    proof {
        assert(s@ =~= t@);
    }
    true
}

/// ASCII lowercasing of a byte slice.
fn lower_ascii(s: &[u8]) -> (r: Vec<u8>)
    ensures
        r@ == lower_seq(s@),
{
    let mut out: Vec<u8> = Vec::new();
    let mut i: usize = 0;
    while i < s.len()
        invariant
            i <= s@.len(),
            out@.len() == i,
            forall|j: int| 0 <= j < i ==> out@[j] == lower_byte(s@[j]),
        decreases s@.len() - i,
    {
        let b = s[i];
        if 65 <= b && b <= 90 {
            out.push(b + 32);
        } else {
            out.push(b);
        }
        i += 1;
    }
    proof {
        assert(out@ =~= lower_seq(s@));
    }
    out
}

/// Select the image format that a file extension names, without regard to
/// ASCII case; `None` stands for an unrecognized format.
pub fn format_from_extension(ext: &str) -> (r: Option<ImageFormat>)
    ensures
        r == spec_format_of(ext.spec_bytes()),
{
    let bytes = ext.as_bytes();
    let low = lower_ascii(bytes);
    let l = low.as_slice();
    let png: [u8; 3] = [112, 110, 103];
    let jpg: [u8; 3] = [106, 112, 103];
    let jpeg: [u8; 4] = [106, 112, 101, 103];
    let gif: [u8; 3] = [103, 105, 102];
    let svg: [u8; 3] = [115, 118, 103];
    let svgz: [u8; 4] = [115, 118, 103, 122];
    proof {
        assert(png@ =~= seq![112u8, 110u8, 103u8]);
        assert(jpg@ =~= seq![106u8, 112u8, 103u8]);
        assert(jpeg@ =~= seq![106u8, 112u8, 101u8, 103u8]);
        assert(gif@ =~= seq![103u8, 105u8, 102u8]);
        assert(svg@ =~= seq![115u8, 118u8, 103u8]);
        assert(svgz@ =~= seq![115u8, 118u8, 103u8, 122u8]);
    }
    if bytes_match(l, png.as_slice()) {
        Some(ImageFormat::Raster(RasterFormat::Png))
    } else if bytes_match(l, jpg.as_slice()) || bytes_match(l, jpeg.as_slice()) {
        Some(ImageFormat::Raster(RasterFormat::Jpg))
    } else if bytes_match(l, gif.as_slice()) {
        Some(ImageFormat::Raster(RasterFormat::Gif))
    } else if bytes_match(l, svg.as_slice()) || bytes_match(l, svgz.as_slice()) {
        Some(ImageFormat::Vector(VectorFormat::Svg))
    } else {
        None
    }
}

/// Select the fit mode that a configuration name names, by exact match;
/// `None` stands for an unrecognized option.
pub fn fit_from_name(name: &str) -> (r: Option<ImageFit>)
    ensures
        r == spec_fit_of(name.spec_bytes()),
{
    let bytes = name.as_bytes();
    let cover: [u8; 5] = [99, 111, 118, 101, 114];
    let contain: [u8; 7] = [99, 111, 110, 116, 97, 105, 110];
    let stretch: [u8; 7] = [115, 116, 114, 101, 116, 99, 104];
    proof {
        assert(cover@ =~= seq![99u8, 111u8, 118u8, 101u8, 114u8]);
        assert(contain@ =~= seq![99u8, 111u8, 110u8, 116u8, 97u8, 105u8, 110u8]);
        assert(stretch@ =~= seq![115u8, 116u8, 114u8, 101u8, 116u8, 99u8, 104u8]);
    }
    if bytes_match(bytes, cover.as_slice()) {
        Some(ImageFit::Cover)
    } else if bytes_match(bytes, contain.as_slice()) {
        Some(ImageFit::Contain)
    } else if bytes_match(bytes, stretch.as_slice()) {
        Some(ImageFit::Stretch)
    } else {
        None
    }
}

} // verus!
