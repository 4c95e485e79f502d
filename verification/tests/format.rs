use image_fit::ImageFit;
use image_fit::ImageFormat;
use image_fit::RasterFormat;
use image_fit::VectorFormat;
use image_fit::fit_from_name;
use image_fit::format_from_extension;

#[test]
fn png_extension() {
    assert_eq!(
        format_from_extension("png"),
        Some(ImageFormat::Raster(RasterFormat::Png))
    );
}

#[test]
fn jpg_and_jpeg_extensions() {
    assert_eq!(
        format_from_extension("jpg"),
        Some(ImageFormat::Raster(RasterFormat::Jpg))
    );
    assert_eq!(
        format_from_extension("jpeg"),
        Some(ImageFormat::Raster(RasterFormat::Jpg))
    );
}

#[test]
fn gif_extension() {
    assert_eq!(
        format_from_extension("gif"),
        Some(ImageFormat::Raster(RasterFormat::Gif))
    );
}

#[test]
fn svg_and_svgz_extensions() {
    assert_eq!(
        format_from_extension("svg"),
        Some(ImageFormat::Vector(VectorFormat::Svg))
    );
    assert_eq!(
        format_from_extension("svgz"),
        Some(ImageFormat::Vector(VectorFormat::Svg))
    );
}

#[test]
fn extensions_match_any_ascii_case() {
    assert_eq!(
        format_from_extension("PNG"),
        Some(ImageFormat::Raster(RasterFormat::Png))
    );
    assert_eq!(
        format_from_extension("JpEg"),
        Some(ImageFormat::Raster(RasterFormat::Jpg))
    );
    assert_eq!(
        format_from_extension("SVGZ"),
        Some(ImageFormat::Vector(VectorFormat::Svg))
    );
}

#[test]
fn unknown_extensions_are_rejected() {
    assert_eq!(format_from_extension(""), None);
    assert_eq!(format_from_extension("bmp"), None);
    assert_eq!(format_from_extension("pngx"), None);
    assert_eq!(format_from_extension("jp"), None);
}

#[test]
fn fit_names() {
    assert_eq!(fit_from_name("cover"), Some(ImageFit::Cover));
    assert_eq!(fit_from_name("contain"), Some(ImageFit::Contain));
    assert_eq!(fit_from_name("stretch"), Some(ImageFit::Stretch));
}

#[test]
fn fit_names_are_exact() {
    assert_eq!(fit_from_name("Cover"), None);
    assert_eq!(fit_from_name("fill"), None);
    assert_eq!(fit_from_name(""), None);
}
