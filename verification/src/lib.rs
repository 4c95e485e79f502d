//! Image-fitting layout resolver.
//!
//! Given an image's intrinsic pixel dimensions, an optional requested width
//! and height (absolute, relative to the available region, or unspecified),
//! an available layout region (finite or unbounded per axis, with per-axis
//! expansion flags), and a fit mode (cover / contain / stretch), this crate
//! computes the target box the image is resized into, the placed extent of
//! the image, and whether the placed content must be clipped.
//!
//! Lengths are exact non-negative rationals with a distinguished sentinel
//! for unbounded axes, so every comparison and every derived extent is
//! computed and specified exactly.

pub mod fit;
pub mod format;
pub mod geom;
pub mod laws;
pub mod rat;

pub use fit::AxisSizing;
pub use fit::FitResult;
pub use fit::ImageFit;
pub use fit::ImageNode;
pub use fit::IntrinsicSize;
pub use fit::Region;
pub use fit::resolve;
pub use format::format_from_extension;
pub use format::fit_from_name;
pub use format::ImageFormat;
pub use format::RasterFormat;
pub use format::VectorFormat;
pub use geom::Length;
pub use geom::LengthModel;
pub use geom::Size;
pub use geom::SizeModel;
pub use rat::Rat;
pub use rat::RatModel;
pub use rat::MAX_INPUT;
