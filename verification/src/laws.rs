//! What holds of every comparison, stated over the same functions as the
//! contracts of the classifier and of the reduction, and proved.

use crate::antialias::{count_siblings, Sibling};
use crate::color::abs;
use crate::compare::{
    diff_view, lemma_rows_bound, matches_at, mismatch_count, overlap_height, overlap_width,
    pixels_match, row_mismatches, rows_mismatches, Compare, MismatchPercent,
};
use crate::options::{ComparisonOptions, Tolerance};
use crate::raster::{RasterView, Rgba8};
use vstd::prelude::*;

verus! {

/// Whether `wide` tolerates at least as much as `narrow`: the same flags,
/// no channel tolerance and no lower brightness bound smaller, and the upper
/// brightness bound no larger.
pub open spec fn at_least_as_tolerant(wide: ComparisonOptions, narrow: ComparisonOptions) -> bool {
    &&& wide.ignore_antialiasing == narrow.ignore_antialiasing
    &&& wide.ignore_colors == narrow.ignore_colors
    &&& wide.tolerance.alpha >= narrow.tolerance.alpha
    &&& wide.tolerance.red >= narrow.tolerance.red
    &&& wide.tolerance.green >= narrow.tolerance.green
    &&& wide.tolerance.blue >= narrow.tolerance.blue
    &&& wide.tolerance.min_brightness >= narrow.tolerance.min_brightness
    &&& wide.tolerance.max_brightness <= narrow.tolerance.max_brightness
}

/// Alpha dominance: two pixels whose alpha differs by more than the alpha
/// tolerance do not match, whatever their colors, their neighbors and the
/// flags are.
pub proof fn lemma_alpha_dominates(
    p1: Rgba8,
    p2: Rgba8,
    a: RasterView,
    b: RasterView,
    x: int,
    y: int,
    opt: ComparisonOptions,
)
    requires
        abs(p1.a - p2.a) > opt.tolerance.alpha,
    ensures
        !pixels_match(p1, p2, a, b, x, y, opt),
{
}

/// Bounds: the mismatches are at least none and at most the pixels of the
/// overlap, so the percentage `100 * mismatches / pixels` lies between 0 and
/// 100; the diff image has the smaller width and the smaller height.
pub proof fn lemma_mismatch_share_bounded(a: RasterView, b: RasterView, opt: ComparisonOptions)
    ensures
        0 <= 100 * mismatch_count(a, b, opt) <= 100 * (overlap_width(a, b) * overlap_height(a, b)),
        diff_view(a, b, opt).width == overlap_width(a, b),
        diff_view(a, b, opt).height == overlap_height(a, b),
        overlap_width(a, b) <= a.width && overlap_width(a, b) <= b.width,
        overlap_height(a, b) <= a.height && overlap_height(a, b) <= b.height,
{
    lemma_rows_bound(a, b, opt, 0, overlap_height(a, b) as int);
    assert(overlap_height(a, b) * overlap_width(a, b) == overlap_width(a, b) * overlap_height(a, b))
        by (nonlinear_arith);
}

/// A pixel matches itself under every tolerance model, wherever it stands.
pub proof fn lemma_pixel_matches_itself(
    p: Rgba8,
    a: RasterView,
    b: RasterView,
    x: int,
    y: int,
    opt: ComparisonOptions,
)
    ensures
        pixels_match(p, p, a, b, x, y, opt),
{
}

/// Comparing a raster with itself finds no mismatch in any range of rows.
proof fn lemma_self_rows(a: RasterView, opt: ComparisonOptions, end: int, n: int)
    ensures
        row_mismatches(a, a, opt, end, n) == 0,
        rows_mismatches(a, a, opt, 0, end) == 0,
    decreases end, n,
{
    if n > 0 {
        lemma_self_rows(a, opt, end, n - 1);
        lemma_pixel_matches_itself(a.at(n - 1, end), a, a, n - 1, end, opt);
    }
    if end > 0 {
        lemma_self_rows(a, opt, end - 1, overlap_width(a, a) as int);
    }
}

/// Identity: a raster compared with itself, under the exact preset or any
/// other tolerance model, has no mismatch, and its diff image is the raster
/// itself.
pub proof fn lemma_identity(a: RasterView, opt: ComparisonOptions)
    requires
        a.wf(),
    ensures
        mismatch_count(a, a, opt) == 0,
        diff_view(a, a, opt) == a,
{
    lemma_self_rows(a, opt, overlap_height(a, a) as int, 0);
    assert forall|k: (int, int)| a.contains(k.0, k.1) implies diff_view(a, a, opt).pixels[k]
        == a.pixels[k] by {
        lemma_pixel_matches_itself(a.at(k.0, k.1), a, a, k.0, k.1, opt);
    }
    assert(diff_view(a, a, opt).pixels =~= a.pixels);
}

/// Lowering the upper brightness bound can only add high-contrast
/// neighbors; the other two counts do not depend on the tolerance.
proof fn lemma_counts_widen(
    img: RasterView,
    center: Rgba8,
    x: int,
    y: int,
    wide: Tolerance,
    narrow: Tolerance,
    k: int,
)
    requires
        wide.max_brightness <= narrow.max_brightness,
    ensures
        count_siblings(Sibling::HighContrast, img, center, x, y, narrow, k) <= count_siblings(
            Sibling::HighContrast,
            img,
            center,
            x,
            y,
            wide,
            k,
        ),
        count_siblings(Sibling::DifferentHue, img, center, x, y, narrow, k) == count_siblings(
            Sibling::DifferentHue,
            img,
            center,
            x,
            y,
            wide,
            k,
        ),
        count_siblings(Sibling::Equivalent, img, center, x, y, narrow, k) == count_siblings(
            Sibling::Equivalent,
            img,
            center,
            x,
            y,
            wide,
            k,
        ),
    decreases k,
{
    if k > 0 {
        lemma_counts_widen(img, center, x, y, wide, narrow, k - 1);
    }
}

/// A pair of pixels that matches keeps matching when the tolerance model is
/// widened in any of its fields.
pub proof fn lemma_match_widens(
    p1: Rgba8,
    p2: Rgba8,
    a: RasterView,
    b: RasterView,
    x: int,
    y: int,
    wide: ComparisonOptions,
    narrow: ComparisonOptions,
)
    requires
        at_least_as_tolerant(wide, narrow),
        pixels_match(p1, p2, a, b, x, y, narrow),
    ensures
        pixels_match(p1, p2, a, b, x, y, wide),
{
    lemma_counts_widen(a, p1, x, y, wide.tolerance, narrow.tolerance, 9);
    lemma_counts_widen(b, p2, x, y, wide.tolerance, narrow.tolerance, 9);
}

/// Widening the tolerance model never adds a mismatch to a row or to a range
/// of rows.
proof fn lemma_rows_widen(
    a: RasterView,
    b: RasterView,
    wide: ComparisonOptions,
    narrow: ComparisonOptions,
    end: int,
    n: int,
)
    requires
        at_least_as_tolerant(wide, narrow),
    ensures
        row_mismatches(a, b, wide, end, n) <= row_mismatches(a, b, narrow, end, n),
        rows_mismatches(a, b, wide, 0, end) <= rows_mismatches(a, b, narrow, 0, end),
    decreases end, n,
{
    if n > 0 {
        lemma_rows_widen(a, b, wide, narrow, end, n - 1);
        if matches_at(a, b, n - 1, end, narrow) {
            lemma_match_widens(a.at(n - 1, end), b.at(n - 1, end), a, b, n - 1, end, wide, narrow);
        }
    }
    if end > 0 {
        lemma_rows_widen(a, b, wide, narrow, end - 1, overlap_width(a, b) as int);
    }
}

/// Monotonic tolerance: for two fixed rasters, a tolerance model that is at
/// least as tolerant finds at most as many mismatches, over the same number
/// of pixels.
pub proof fn lemma_mismatch_count_widens(
    a: RasterView,
    b: RasterView,
    wide: ComparisonOptions,
    narrow: ComparisonOptions,
)
    requires
        at_least_as_tolerant(wide, narrow),
    ensures
        mismatch_count(a, b, wide) <= mismatch_count(a, b, narrow),
{
    lemma_rows_widen(a, b, wide, narrow, overlap_height(a, b) as int, 0);
}

/// Whether two pixels match does not depend on which of them is called the
/// first.
pub proof fn lemma_match_symmetric(
    p1: Rgba8,
    p2: Rgba8,
    a: RasterView,
    b: RasterView,
    x: int,
    y: int,
    opt: ComparisonOptions,
)
    ensures
        pixels_match(p1, p2, a, b, x, y, opt) == pixels_match(p2, p1, b, a, x, y, opt),
{
}

/// Swapping the rasters changes no count of a row or of a range of rows.
proof fn lemma_rows_symmetric(a: RasterView, b: RasterView, opt: ComparisonOptions, end: int, n: int)
    ensures
        row_mismatches(a, b, opt, end, n) == row_mismatches(b, a, opt, end, n),
        rows_mismatches(a, b, opt, 0, end) == rows_mismatches(b, a, opt, 0, end),
    decreases end, n,
{
    if n > 0 {
        lemma_rows_symmetric(a, b, opt, end, n - 1);
        lemma_match_symmetric(a.at(n - 1, end), b.at(n - 1, end), a, b, n - 1, end, opt);
    }
    if end > 0 {
        lemma_rows_symmetric(a, b, opt, end - 1, overlap_width(a, b) as int);
    }
}

/// Symmetry: comparing the second raster with the first finds as many
/// mismatches, over as many pixels, as comparing the first with the second.
pub proof fn lemma_mismatch_count_symmetric(a: RasterView, b: RasterView, opt: ComparisonOptions)
    ensures
        mismatch_count(a, b, opt) == mismatch_count(b, a, opt),
        overlap_width(a, b) == overlap_width(b, a),
        overlap_height(a, b) == overlap_height(b, a),
{
    lemma_rows_symmetric(a, b, opt, overlap_height(a, b) as int, 0);
}

/// The count over a range of rows is the sum of the counts over its two
/// parts, wherever the range is cut: rows can be handed out in any partition
/// and the counts added in any order.
pub proof fn lemma_rows_split(
    a: RasterView,
    b: RasterView,
    opt: ComparisonOptions,
    first: int,
    mid: int,
    end: int,
)
    requires
        first <= mid <= end,
    ensures
        rows_mismatches(a, b, opt, first, end) == rows_mismatches(a, b, opt, first, mid)
            + rows_mismatches(a, b, opt, mid, end),
    decreases end - mid,
{
    if mid < end {
        lemma_rows_split(a, b, opt, first, mid, end - 1);
    }
}

/// Determinism: two outcomes of comparing the same rasters under the same
/// tolerance model hold the same diff image and the same counts, and the
/// share that is computed without a diff image is the same share.
pub proof fn lemma_outcomes_agree(
    a: RasterView,
    b: RasterView,
    opt: ComparisonOptions,
    r1: Compare,
    r2: Compare,
    m: MismatchPercent,
)
    requires
        r1.image@ == diff_view(a, b, opt),
        r1.mismatch_percent.mismatched == mismatch_count(a, b, opt),
        r1.mismatch_percent.compared == overlap_width(a, b) * overlap_height(a, b),
        r2.image@ == diff_view(a, b, opt),
        r2.mismatch_percent.mismatched == mismatch_count(a, b, opt),
        r2.mismatch_percent.compared == overlap_width(a, b) * overlap_height(a, b),
        m.mismatched == mismatch_count(a, b, opt),
        m.compared == overlap_width(a, b) * overlap_height(a, b),
    ensures
        r1.image@ == r2.image@,
        r1.mismatch_percent == r2.mismatch_percent,
        m == r1.mismatch_percent,
{
}

} // verus!
