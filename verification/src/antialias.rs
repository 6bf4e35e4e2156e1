//! The neighborhood analyzer: whether a pixel looks like an anti-aliased edge
//! sample, judged from the up to eight pixels around it.

use crate::color::{
    get_hue, high_contrast, hue_den, hue_differs, hue_num, is_high_contrast, is_hue_different,
    is_rgb_same, rgb_same, Hue,
};
use crate::options::Tolerance;
use crate::raster::{Raster, RasterView, Rgba8};
use vstd::prelude::*;

verus! {

/// The three ways in which a neighbor can stand out against the center.
#[derive(Clone, Copy, Debug, PartialEq, Eq, Structural)]
pub enum Sibling {
    /// Its brightness differs by more than the upper brightness bound.
    HighContrast,
    /// Its hue lies more than three tenths of the circle away.
    DifferentHue,
    /// Its red, green and blue equal the center's.
    Equivalent,
}

/// The column of cell `k` of the three by three block around column `x`.
/// Cells are numbered 0 to 8, column by column; cell 4 is the center.
pub open spec fn cell_x(x: int, k: int) -> int {
    x + k / 3 - 1
}

/// The row of cell `k` of the three by three block around row `y`.
pub open spec fn cell_y(y: int, k: int) -> int {
    y + k % 3 - 1
}

/// Whether cell `k` around `(x, y)` is a neighbor: not the center, and inside
/// the image. At an edge or a corner fewer cells are.
pub open spec fn is_neighbor(img: RasterView, x: int, y: int, k: int) -> bool {
    k != 4 && img.contains(cell_x(x, k), cell_y(y, k))
}

/// Whether `other` stands out against `center` in the given way.
pub open spec fn sibling_is(kind: Sibling, center: Rgba8, other: Rgba8, t: Tolerance) -> bool {
    match kind {
        Sibling::HighContrast => high_contrast(center, other, t),
        Sibling::DifferentHue => hue_differs(center, other),
        Sibling::Equivalent => rgb_same(center, other),
    }
}

/// Whether cell `k` around `(x, y)` is a neighbor that stands out against
/// `center` in the given way.
pub open spec fn cell_counts(
    kind: Sibling,
    img: RasterView,
    center: Rgba8,
    x: int,
    y: int,
    t: Tolerance,
    k: int,
) -> bool {
    is_neighbor(img, x, y, k) && sibling_is(kind, center, img.at(cell_x(x, k), cell_y(y, k)), t)
}

/// The number of neighbors among the first `k` cells around `(x, y)` that
/// stand out against `center` in the given way.
pub open spec fn count_siblings(
    kind: Sibling,
    img: RasterView,
    center: Rgba8,
    x: int,
    y: int,
    t: Tolerance,
    k: int,
) -> int
    decreases k,
{
    if k <= 0 {
        0
    } else {
        count_siblings(kind, img, center, x, y, t, k - 1) + if cell_counts(
            kind,
            img,
            center,
            x,
            y,
            t,
            k - 1,
        ) {
            1int
        } else {
            0int
        }
    }
}

/// Whether `center`, placed at `(x, y)` of `img`, looks anti-aliased: more
/// than one neighbor of another hue, or more than one of high contrast, or
/// fewer than two neighbors of the very same color.
pub open spec fn antialiased(img: RasterView, center: Rgba8, x: int, y: int, t: Tolerance) -> bool {
    ||| count_siblings(Sibling::DifferentHue, img, center, x, y, t, 9) > 1
    ||| count_siblings(Sibling::HighContrast, img, center, x, y, t, 9) > 1
    ||| count_siblings(Sibling::Equivalent, img, center, x, y, t, 9) < 2
}

/// A count never shrinks as more cells are scanned, and never exceeds the
/// number of cells scanned.
pub proof fn lemma_count_grows(
    kind: Sibling,
    img: RasterView,
    center: Rgba8,
    x: int,
    y: int,
    t: Tolerance,
    j: int,
    k: int,
)
    requires
        0 <= j <= k,
    ensures
        0 <= count_siblings(kind, img, center, x, y, t, j) <= count_siblings(
            kind,
            img,
            center,
            x,
            y,
            t,
            k,
        ) <= k,
    decreases k,
{
    if j < k {
        lemma_count_grows(kind, img, center, x, y, t, j, k - 1);
    } else if k > 0 {
        lemma_count_grows(kind, img, center, x, y, t, j - 1, k - 1);
    }
}

/// Whether the pixel `p1`, placed at `p` of `image`, looks like an
/// anti-aliased edge sample. The scan stops as soon as two neighbors of
/// another hue, or two of high contrast, have been seen.
pub fn is_antialiased(p1: &Rgba8, image: &Raster, p: &(u32, u32), tolerance: &Tolerance) -> (r:
    bool)
    ensures
        r == antialiased(image@, *p1, p.0 as int, p.1 as int, *tolerance),
{
    let (width, height) = image.dimensions();
    let hue1: Hue = get_hue(p1);
    let mut has_equivalent_sibling: u32 = 0;
    let mut has_sibling_with_different_hue: u32 = 0;
    let mut has_high_contrast_sibling: u32 = 0;
    let ghost view = image@;
    let ghost x = p.0 as int;
    let ghost y = p.1 as int;
    let ghost t = *tolerance;
    let ghost center = *p1;

    let mut dx: u32 = 0;
    while dx < 3
        invariant
            dx <= 3,
            view == image@,
            width == view.width,
            height == view.height,
            x == p.0,
            y == p.1,
            t == *tolerance,
            center == *p1,
            hue1.num == hue_num(center),
            hue1.den == hue_den(center),
            has_equivalent_sibling == count_siblings(
                Sibling::Equivalent,
                view,
                center,
                x,
                y,
                t,
                3 * dx,
            ),
            has_sibling_with_different_hue == count_siblings(
                Sibling::DifferentHue,
                view,
                center,
                x,
                y,
                t,
                3 * dx,
            ),
            has_high_contrast_sibling == count_siblings(
                Sibling::HighContrast,
                view,
                center,
                x,
                y,
                t,
                3 * dx,
            ),
            has_sibling_with_different_hue <= 1,
            has_high_contrast_sibling <= 1,
            has_equivalent_sibling <= 3 * dx,
        decreases 3 - dx,
    {
        let mut dy: u32 = 0;
        while dy < 3
            invariant
                dx < 3,
                dy <= 3,
                view == image@,
                width == view.width,
                height == view.height,
                x == p.0,
                y == p.1,
                t == *tolerance,
                center == *p1,
                hue1.num == hue_num(center),
                hue1.den == hue_den(center),
                has_equivalent_sibling == count_siblings(
                    Sibling::Equivalent,
                    view,
                    center,
                    x,
                    y,
                    t,
                    3 * dx + dy,
                ),
                has_sibling_with_different_hue == count_siblings(
                    Sibling::DifferentHue,
                    view,
                    center,
                    x,
                    y,
                    t,
                    3 * dx + dy,
                ),
                has_high_contrast_sibling == count_siblings(
                    Sibling::HighContrast,
                    view,
                    center,
                    x,
                    y,
                    t,
                    3 * dx + dy,
                ),
                has_sibling_with_different_hue <= 1,
                has_high_contrast_sibling <= 1,
                has_equivalent_sibling <= 3 * dx + dy,
            decreases 3 - dy,
        {
            let ghost k = 3 * dx + dy;
            let nx: i64 = p.0 as i64 + dx as i64 - 1;
            let ny: i64 = p.1 as i64 + dy as i64 - 1;
            // ignore source pixel
            let is_center: bool = dx == 1 && dy == 1;
            if !is_center && 0 <= nx && nx < width as i64 && 0 <= ny && ny < height as i64 {
                let p2: Rgba8 = image.read(nx as u32, ny as u32);
                let hue2: Hue = get_hue(&p2);

                if is_high_contrast(p1, &p2, tolerance) {
                    has_high_contrast_sibling += 1;
                }
                if is_hue_different(hue1, hue2) {
                    has_sibling_with_different_hue += 1;
                }
                if is_rgb_same(p1, &p2) {
                    has_equivalent_sibling += 1;
                }
                if has_sibling_with_different_hue > 1 || has_high_contrast_sibling > 1 {
                    proof {
                        lemma_count_grows(Sibling::DifferentHue, view, center, x, y, t, k + 1, 9);
                        lemma_count_grows(Sibling::HighContrast, view, center, x, y, t, k + 1, 9);
                    }
                    return true;
                }
            }
            dy += 1;
        }
        dx += 1;
    }

    has_equivalent_sibling < 2
}

} // verus!
