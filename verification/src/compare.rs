//! The pixel classifier and the reduction that runs it over the overlap of
//! two rasters, giving a diff image and the number of mismatches.

use crate::antialias::{antialiased, is_antialiased};
use crate::color::{
    alpha_similar, brightness_similar, is_alpha_similar, is_pixel_brightness_similar,
    is_rgb_similar, rgb_similar,
};
use crate::options::ComparisonOptions;
use crate::raster::{fits_in_memory, pixel_count, Raster, RasterView, Rgba8};
use vstd::prelude::*;

verus! {

/// The exact share of mismatched pixels: `100 * mismatched / compared`
/// percent. Both counts are kept, so that nothing is rounded.
#[derive(Clone, Copy, Debug, PartialEq, Eq, Structural)]
pub struct MismatchPercent {
    pub mismatched: u64,
    pub compared: u64,
}

/// The outcome of a comparison: the diff image and the share of mismatches.
pub struct Compare {
    pub image: Raster,
    pub mismatch_percent: MismatchPercent,
}

/// The color that marks a mismatch in a diff image: opaque magenta.
pub open spec fn mismatch_color() -> Rgba8 {
    Rgba8 { r: 255, g: 0, b: 255, a: 255 }
}

/// The decision for one coordinate. Alpha decides first; then either
/// brightness alone (when colors are ignored), or the color channels, with
/// brightness as the fallback for anti-aliased pixels.
pub open spec fn pixels_match(
    p1: Rgba8,
    p2: Rgba8,
    a: RasterView,
    b: RasterView,
    x: int,
    y: int,
    opt: ComparisonOptions,
) -> bool {
    if !alpha_similar(p1, p2, opt.tolerance) {
        false
    } else if opt.ignore_colors {
        brightness_similar(p1, p2, opt.tolerance)
    } else if rgb_similar(p1, p2, opt.tolerance) {
        true
    } else if opt.ignore_antialiasing && (antialiased(a, p1, x, y, opt.tolerance) || antialiased(
        b,
        p2,
        x,
        y,
        opt.tolerance,
    )) {
        brightness_similar(p1, p2, opt.tolerance)
    } else {
        false
    }
}

/// Whether the two rasters match at `(x, y)`.
pub open spec fn matches_at(a: RasterView, b: RasterView, x: int, y: int, opt: ComparisonOptions) -> bool {
    pixels_match(a.at(x, y), b.at(x, y), a, b, x, y, opt)
}

/// The width of the region that both rasters cover.
pub open spec fn overlap_width(a: RasterView, b: RasterView) -> nat {
    if a.width <= b.width {
        a.width
    } else {
        b.width
    }
}

/// The height of the region that both rasters cover.
pub open spec fn overlap_height(a: RasterView, b: RasterView) -> nat {
    if a.height <= b.height {
        a.height
    } else {
        b.height
    }
}

/// The pixel of the diff image at `(x, y)`: the first raster's pixel where
/// the two match, the mismatch color where they do not.
pub open spec fn diff_pixel(a: RasterView, b: RasterView, x: int, y: int, opt: ComparisonOptions) -> Rgba8 {
    if matches_at(a, b, x, y, opt) {
        a.at(x, y)
    } else {
        mismatch_color()
    }
}

/// The diff image of two rasters: it covers their overlap.
pub open spec fn diff_view(a: RasterView, b: RasterView, opt: ComparisonOptions) -> RasterView {
    RasterView {
        width: overlap_width(a, b),
        height: overlap_height(a, b),
        pixels: Map::new(
            |k: (int, int)| 0 <= k.0 < overlap_width(a, b) && 0 <= k.1 < overlap_height(a, b),
            |k: (int, int)| diff_pixel(a, b, k.0, k.1, opt),
        ),
    }
}

/// The number of mismatches among the first `n` pixels of row `y`.
pub open spec fn row_mismatches(a: RasterView, b: RasterView, opt: ComparisonOptions, y: int, n: int) -> int
    decreases n,
{
    if n <= 0 {
        0
    } else {
        row_mismatches(a, b, opt, y, n - 1) + if matches_at(a, b, n - 1, y, opt) {
            0int
        } else {
            1int
        }
    }
}

/// The number of mismatches in the rows from `first` up to, not including,
/// `end`, each taken over the width of the overlap.
pub open spec fn rows_mismatches(
    a: RasterView,
    b: RasterView,
    opt: ComparisonOptions,
    first: int,
    end: int,
) -> int
    decreases end - first,
{
    if end <= first {
        0
    } else {
        rows_mismatches(a, b, opt, first, end - 1) + row_mismatches(
            a,
            b,
            opt,
            end - 1,
            overlap_width(a, b) as int,
        )
    }
}

/// The number of mismatches over the whole overlap.
pub open spec fn mismatch_count(a: RasterView, b: RasterView, opt: ComparisonOptions) -> int {
    rows_mismatches(a, b, opt, 0, overlap_height(a, b) as int)
}

/// A row holds no more mismatches than pixels.
pub proof fn lemma_row_bound(a: RasterView, b: RasterView, opt: ComparisonOptions, y: int, n: int)
    requires
        0 <= n,
    ensures
        0 <= row_mismatches(a, b, opt, y, n) <= n,
    decreases n,
{
    if n > 0 {
        lemma_row_bound(a, b, opt, y, n - 1);
    }
}

/// A range of rows holds no more mismatches than pixels.
pub proof fn lemma_rows_bound(
    a: RasterView,
    b: RasterView,
    opt: ComparisonOptions,
    first: int,
    end: int,
)
    requires
        first <= end,
    ensures
        0 <= rows_mismatches(a, b, opt, first, end) <= (end - first) * overlap_width(a, b),
    decreases end - first,
{
    if first < end {
        let w = overlap_width(a, b) as int;
        lemma_rows_bound(a, b, opt, first, end - 1);
        lemma_row_bound(a, b, opt, end - 1, w);
        assert((end - 1 - first) * w + w == (end - first) * w) by (nonlinear_arith);
    } else {
        assert((end - first) * overlap_width(a, b) == 0) by (nonlinear_arith)
            requires
                end == first,
        ;
    }
}

/// The color that marks a mismatch in a diff image: opaque magenta.
pub fn mismatch_pixel() -> (p: Rgba8)
    ensures
        p == mismatch_color(),
{
    Rgba8 { r: 255, g: 0, b: 255, a: 255 }
}

/// Decides whether two pixels, found at `position` of their rasters, match
/// under `opt`. A pair whose alpha differs by more than the alpha tolerance
/// never matches, whatever else holds.
pub fn compare_pixel(
    pixel1: &Rgba8,
    pixel2: &Rgba8,
    img1: &Raster,
    img2: &Raster,
    position: (u32, u32),
    opt: &ComparisonOptions,
) -> (r: bool)
    ensures
        r == pixels_match(
            *pixel1,
            *pixel2,
            img1@,
            img2@,
            position.0 as int,
            position.1 as int,
            *opt,
        ),
        !alpha_similar(*pixel1, *pixel2, opt.tolerance) ==> !r,
{
    if !is_alpha_similar(pixel1, pixel2, &opt.tolerance) {
        false
    } else if opt.ignore_colors {
        is_pixel_brightness_similar(pixel1, pixel2, &opt.tolerance)
    } else if is_rgb_similar(pixel1, pixel2, &opt.tolerance) {
        true
    } else if opt.ignore_antialiasing && (is_antialiased(pixel1, img1, &position, &opt.tolerance)
        || is_antialiased(pixel2, img2, &position, &opt.tolerance)) {
        is_pixel_brightness_similar(pixel1, pixel2, &opt.tolerance)
    } else {
        false
    }
}

/// The dimensions of the region that both rasters cover: the smaller width
/// and the smaller height.
pub fn width_height_from_2_images(img1: &Raster, img2: &Raster) -> (d: (u32, u32))
    ensures
        d.0 == overlap_width(img1@, img2@),
        d.1 == overlap_height(img1@, img2@),
        fits_in_memory(d.0 as int, d.1 as int),
{
    let (width1, height1) = img1.dimensions();
    let (width2, height2) = img2.dimensions();

    let width: u32 = if width1 <= width2 {
        width1
    } else {
        width2
    };
    let height: u32 = if height1 <= height2 {
        height1
    } else {
        height2
    };
    assert(4 * width <= 4 * width1 && 4 * width * height <= 4 * width1 * height1)
        by (nonlinear_arith)
        requires
            0 <= width <= width1,
            0 <= height <= height1,
    ;
    (width, height)
}

/// The column and the row of the pixel with the given row-major index in a
/// raster of the given width.
pub fn xy_from_index(width: u32, index: u32) -> (xy: (u32, u32))
    requires
        width > 0,
    ensures
        xy.0 == index % width,
        xy.1 == index / width,
        xy.0 < width,
        xy.1 * width + xy.0 == index,
{
    let y: u32 = index / width;
    assert(width * y <= index && index - width * y == index % width && y * width == width * y)
        by (nonlinear_arith)
        requires
            y == index / width,
            width > 0,
            index >= 0,
    ;
    let x: u32 = index - width * y;
    (x, y)
}

/// Decides one coordinate of the overlap: whether the two rasters match
/// there, and the pixel that the diff image shows there.
pub fn diff_pixel_at(img1: &Raster, img2: &Raster, opt: &ComparisonOptions, x: u32, y: u32) -> (r: (
    bool,
    Rgba8,
))
    requires
        x < overlap_width(img1@, img2@),
        y < overlap_height(img1@, img2@),
    ensures
        r.0 == matches_at(img1@, img2@, x as int, y as int, *opt),
        r.1 == diff_pixel(img1@, img2@, x as int, y as int, *opt),
{
    let pixel1: Rgba8 = img1.read(x, y);
    let pixel2: Rgba8 = img2.read(x, y);
    let are_equals: bool = compare_pixel(&pixel1, &pixel2, img1, img2, (x, y), opt);
    if are_equals {
        (true, pixel1)
    } else {
        (false, mismatch_pixel())
    }
}

/// Counts the mismatches of row `y` of the overlap.
fn count_row(img1: &Raster, img2: &Raster, opt: &ComparisonOptions, y: u32, width: u32) -> (n: u32)
    requires
        width == overlap_width(img1@, img2@),
        y < overlap_height(img1@, img2@),
    ensures
        n == row_mismatches(img1@, img2@, *opt, y as int, width as int),
{
    let mut n: u32 = 0;
    let mut x: u32 = 0;
    while x < width
        invariant
            x <= width,
            width == overlap_width(img1@, img2@),
            y < overlap_height(img1@, img2@),
            n == row_mismatches(img1@, img2@, *opt, y as int, x as int),
            n <= x,
        decreases width - x,
    {
        let (are_equals, _) = diff_pixel_at(img1, img2, opt, x, y);
        if !are_equals {
            n += 1;
        }
        x += 1;
    }
    n
}

/// Fills row `y` of the diff image and counts the row's mismatches.
fn fill_row(
    out: &mut Raster,
    img1: &Raster,
    img2: &Raster,
    opt: &ComparisonOptions,
    y: u32,
    width: u32,
) -> (n: u32)
    requires
        width == overlap_width(img1@, img2@),
        y < overlap_height(img1@, img2@),
        old(out)@.width == width,
        old(out)@.height == overlap_height(img1@, img2@),
    ensures
        final(out)@.width == old(out)@.width,
        final(out)@.height == old(out)@.height,
        n == row_mismatches(img1@, img2@, *opt, y as int, width as int),
        forall|i: int|
            0 <= i < width ==> #[trigger] final(out)@.at(i, y as int) == diff_pixel(
                img1@,
                img2@,
                i,
                y as int,
                *opt,
            ),
        forall|i: int, j: int|
            old(out)@.contains(i, j) && j != y ==> #[trigger] final(out)@.at(i, j) == old(out)@.at(
                i,
                j,
            ),
{
    let mut n: u32 = 0;
    let mut x: u32 = 0;
    while x < width
        invariant
            x <= width,
            width == overlap_width(img1@, img2@),
            y < overlap_height(img1@, img2@),
            out@.width == width,
            out@.height == overlap_height(img1@, img2@),
            n == row_mismatches(img1@, img2@, *opt, y as int, x as int),
            n <= x,
            forall|i: int|
                0 <= i < x ==> #[trigger] out@.at(i, y as int) == diff_pixel(
                    img1@,
                    img2@,
                    i,
                    y as int,
                    *opt,
                ),
            forall|i: int, j: int|
                old(out)@.contains(i, j) && j != y ==> #[trigger] out@.at(i, j) == old(out)@.at(i, j),
        decreases width - x,
    {
        let (are_equals, pixel) = diff_pixel_at(img1, img2, opt, x, y);
        out.write(x, y, pixel);
        if !are_equals {
            n += 1;
        }
        x += 1;
    }
    n
}

/// Counts the mismatches in the rows from `first` up to, not including,
/// `end`. Rows can be counted in any partition: the counts add up.
pub fn count_mismatches(
    img1: &Raster,
    img2: &Raster,
    opt: &ComparisonOptions,
    first: u32,
    end: u32,
) -> (n: u64)
    requires
        first <= end <= overlap_height(img1@, img2@),
    ensures
        n == rows_mismatches(img1@, img2@, *opt, first as int, end as int),
        n <= (end - first) * overlap_width(img1@, img2@),
{
    let (width, height) = width_height_from_2_images(img1, img2);
    let mut n: u64 = 0;
    let mut y: u32 = first;
    proof {
        lemma_rows_bound(img1@, img2@, *opt, first as int, first as int);
    }
    while y < end
        invariant
            first <= y <= end <= height,
            width == overlap_width(img1@, img2@),
            height == overlap_height(img1@, img2@),
            n == rows_mismatches(img1@, img2@, *opt, first as int, y as int),
            n <= (y - first) * width,
        decreases end - y,
    {
        let row: u32 = count_row(img1, img2, opt, y, width);
        proof {
            lemma_row_bound(img1@, img2@, *opt, y as int, width as int);
            assert((y - first) * width + width == (y + 1 - first) * width) by (nonlinear_arith);
            assert((y + 1 - first) * width <= u32::MAX * u32::MAX) by (nonlinear_arith)
                requires
                    0 <= y + 1 - first <= u32::MAX,
                    0 <= width <= u32::MAX,
            ;
        }
        n += row as u64;
        y += 1;
    }
    n
}

/// Compares two rasters pixel by pixel over their overlap and reports the
/// exact share of mismatched pixels.
pub fn get_mismatch_percent(img1: &Raster, img2: &Raster, opt: &ComparisonOptions) -> (r:
    MismatchPercent)
    ensures
        r.mismatched == mismatch_count(img1@, img2@, *opt),
        r.compared == overlap_width(img1@, img2@) * overlap_height(img1@, img2@),
        r.mismatched <= r.compared,
{
    let (width, height) = width_height_from_2_images(img1, img2);
    let mismatched: u64 = count_mismatches(img1, img2, opt, 0, height);
    assert(height * width == width * height) by (nonlinear_arith);
    MismatchPercent { mismatched, compared: pixel_count(width, height) }
}

/// Compares two rasters pixel by pixel over their overlap. The diff image
/// shows the first raster where the two match and the mismatch color where
/// they do not; the share of mismatches is exact.
pub fn compare_images(img1: &Raster, img2: &Raster, opt: &ComparisonOptions) -> (r: Compare)
    ensures
        r.image@ == diff_view(img1@, img2@, *opt),
        r.image@.width == overlap_width(img1@, img2@),
        r.image@.height == overlap_height(img1@, img2@),
        r.mismatch_percent.mismatched == mismatch_count(img1@, img2@, *opt),
        r.mismatch_percent.compared == overlap_width(img1@, img2@) * overlap_height(img1@, img2@),
        r.mismatch_percent.mismatched <= r.mismatch_percent.compared,
{
    let (width, height) = width_height_from_2_images(img1, img2);
    let mut img_out: Raster = Raster::blank(width, height);
    let mut mismatch_count: u64 = 0;
    let mut y: u32 = 0;
    proof {
        lemma_rows_bound(img1@, img2@, *opt, 0, 0);
    }
    while y < height
        invariant
            y <= height,
            width == overlap_width(img1@, img2@),
            height == overlap_height(img1@, img2@),
            img_out@.width == width,
            img_out@.height == height,
            mismatch_count == rows_mismatches(img1@, img2@, *opt, 0, y as int),
            mismatch_count <= y * width,
            forall|i: int, j: int|
                0 <= i < width && 0 <= j < y ==> #[trigger] img_out@.at(i, j) == diff_pixel(
                    img1@,
                    img2@,
                    i,
                    j,
                    *opt,
                ),
        decreases height - y,
    {
        let row: u32 = fill_row(&mut img_out, img1, img2, opt, y, width);
        proof {
            lemma_row_bound(img1@, img2@, *opt, y as int, width as int);
            assert(y * width + width == (y + 1) * width) by (nonlinear_arith);
            assert((y + 1) * width <= u32::MAX * u32::MAX) by (nonlinear_arith)
                requires
                    0 <= y + 1 <= u32::MAX,
                    0 <= width <= u32::MAX,
            ;
        }
        mismatch_count += row as u64;
        y += 1;
    }
    assert(height * width == width * height) by (nonlinear_arith);
    assert(img_out@.pixels =~= diff_view(img1@, img2@, *opt).pixels);
    Compare {
        image: img_out,
        mismatch_percent: MismatchPercent {
            mismatched: mismatch_count,
            compared: pixel_count(width, height),
        },
    }
}

} // verus!
