//! Perceptual comparison of two RGBA rasters: a per-pixel match decision under
//! a tolerance model, a diff image, and an exact mismatch ratio.
//!
//! Two rasters are compared coordinate by coordinate over the region that
//! both cover. A pair of pixels matches when its alpha and its colors are
//! within tolerance; two relaxations replace the color test by a brightness
//! test, either everywhere or only for pixels that look anti-aliased. The
//! diff image shows the first raster where the pair matches and opaque
//! magenta where it does not.
//!
//! All arithmetic is exact. Brightness is counted in hundredths, hue is a
//! fraction, and the share of mismatches is a pair of counts; a caller that
//! wants a floating-point percentage divides them.
//!
//! Pixels are stored by the `image` crate. What that crate does is stated in
//! the contracts of a few small functions in `raster`; on those rests the
//! proof of everything else.

pub mod antialias;
pub mod color;
pub mod compare;
pub mod laws;
pub mod options;
pub mod raster;

pub use crate::compare::compare_images;
pub use crate::compare::get_mismatch_percent;
pub use crate::compare::Compare;
pub use crate::compare::MismatchPercent;
pub use crate::options::ComparisonOptions;
pub use crate::options::Profile;
pub use crate::options::Tolerance;
pub use crate::raster::Raster;
pub use crate::raster::Rgba8;
