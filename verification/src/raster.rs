//! The in-memory raster that the comparison reads and fills, and the pixel
//! value that is read out of it.
//!
//! The storage is `image::RgbaImage`. Verus sees nothing inside it: what it
//! holds is named by `raster_dimensions` and `raster_pixels`, and the few
//! functions that touch the buffer state over those names what the `image`
//! crate does. Everything else in this module is proved from them.

use vstd::prelude::*;

verus! {

/// One pixel: four 8-bit channels.
#[derive(Clone, Copy, Debug, PartialEq, Eq, Structural)]
pub struct Rgba8 {
    pub r: u8,
    pub g: u8,
    pub b: u8,
    pub a: u8,
}

impl Rgba8 {
    /// The red channel.
    pub fn r(&self) -> (v: u8)
        ensures
            v == self.r,
    {
        self.r
    }

    /// The green channel.
    pub fn g(&self) -> (v: u8)
        ensures
            v == self.g,
    {
        self.g
    }

    /// The blue channel.
    pub fn b(&self) -> (v: u8)
        ensures
            v == self.b,
    {
        self.b
    }

    /// The alpha channel.
    pub fn a(&self) -> (v: u8)
        ensures
            v == self.a,
    {
        self.a
    }
}

/// An RGBA8 image buffer, stored as an `image::RgbaImage`.
#[verifier::external_body]
pub struct Raster {
    buf: image::RgbaImage,
}

/// The width and height that a raster was made with, as
/// `ImageBuffer::dimensions` reports them.
pub uninterp spec fn raster_dimensions(img: Raster) -> (u32, u32);

/// What a raster holds: the pixel stored at each coordinate `(x, y)`.
/// Only coordinates inside the raster's dimensions carry meaning.
pub uninterp spec fn raster_pixels(img: Raster) -> Map<(int, int), Rgba8>;

/// Whether a buffer of `width * height` RGBA8 pixels can exist: the samples
/// of one row must be countable in a `usize`, whatever the height is, and the
/// byte length of the whole must not exceed what one allocation can hold.
pub open spec fn fits_in_memory(width: int, height: int) -> bool {
    4 * width <= usize::MAX && 4 * width * height <= isize::MAX
}

/// The pixel whose four samples start at sample `4 * i` of a raw buffer.
pub open spec fn pixel_in(bytes: Seq<u8>, i: int) -> Rgba8 {
    Rgba8 { r: bytes[4 * i], g: bytes[4 * i + 1], b: bytes[4 * i + 2], a: bytes[4 * i + 3] }
}

/// The mathematical content of a raster.
pub struct RasterView {
    pub width: nat,
    pub height: nat,
    pub pixels: Map<(int, int), Rgba8>,
}

impl RasterView {
    /// Whether `(x, y)` is a coordinate of the raster.
    pub open spec fn contains(self, x: int, y: int) -> bool {
        0 <= x < self.width && 0 <= y < self.height
    }

    /// The pixel at `(x, y)`; meaningful only where `contains(x, y)`.
    #[verifier::inline]
    pub open spec fn at(self, x: int, y: int) -> Rgba8 {
        self.pixels[(x, y)]
    }

    /// The invariant of every view: the dimensions are 32-bit, and pixels are
    /// defined exactly on the coordinates inside them.
    pub open spec fn wf(self) -> bool {
        &&& self.width <= u32::MAX
        &&& self.height <= u32::MAX
        &&& forall|k: (int, int)| #[trigger] self.pixels.dom().contains(k) <==> self.contains(k.0, k.1)
    }
}

impl View for Raster {
    type V = RasterView;

    open spec fn view(&self) -> RasterView {
        let d = raster_dimensions(*self);
        RasterView {
            width: d.0 as nat,
            height: d.1 as nat,
            pixels: Map::new(
                |k: (int, int)| 0 <= k.0 < d.0 && 0 <= k.1 < d.1,
                |k: (int, int)| raster_pixels(*self)[k],
            ),
        }
    }
}

/// `ImageBuffer::dimensions`: the width and height the buffer was made with.
/// Every constructor of the buffer computes `4 * width` and then
/// `4 * width * height` without overflow of `usize` and checks that so many
/// samples fit in its `Vec<u8>`, whose length never exceeds `isize::MAX`.
#[verifier::external_body]
fn buffer_dimensions(img: &Raster) -> (d: (u32, u32))
    ensures
        d == raster_dimensions(*img),
        fits_in_memory(d.0 as int, d.1 as int),
{
    img.buf.dimensions()
}

/// `ImageBuffer::get_pixel`: the pixel stored at `(x, y)`, channel by channel.
/// The outside function panics outside the image's bounds, which the
/// precondition leaves out.
#[verifier::external_body]
fn buffer_get(img: &Raster, x: u32, y: u32) -> (p: Rgba8)
    requires
        x < raster_dimensions(*img).0,
        y < raster_dimensions(*img).1,
    ensures
        p == raster_pixels(*img)[(x as int, y as int)],
{
    let q = img.buf.get_pixel(x, y);
    Rgba8 { r: q.0[0], g: q.0[1], b: q.0[2], a: q.0[3] }
}

/// `ImageBuffer::put_pixel`: stores `p` at `(x, y)` and leaves the dimensions
/// and every other pixel as they were. The outside function panics outside
/// the image's bounds, which the precondition leaves out.
#[verifier::external_body]
fn buffer_put(img: &mut Raster, x: u32, y: u32, p: Rgba8)
    requires
        x < raster_dimensions(*old(img)).0,
        y < raster_dimensions(*old(img)).1,
    ensures
        raster_dimensions(*final(img)) == raster_dimensions(*old(img)),
        raster_pixels(*final(img)) == raster_pixels(*old(img)).insert((x as int, y as int), p),
{
    img.buf.put_pixel(x, y, image::Rgba([p.r, p.g, p.b, p.a]));
}

/// `ImageBuffer::new`: a buffer of the given dimensions whose samples are all
/// zero. The outside function panics when `4 * width`, or that times the
/// height, overflows `usize`, and when the buffer would be larger than a
/// vector can be; the precondition leaves all of that out.
#[verifier::external_body]
fn buffer_new(width: u32, height: u32) -> (img: Raster)
    requires
        fits_in_memory(width as int, height as int),
    ensures
        raster_dimensions(img) == (width, height),
        forall|x: int, y: int|
            0 <= x < width && 0 <= y < height ==> #[trigger] raster_pixels(img)[(x, y)] == (Rgba8 {
                r: 0,
                g: 0,
                b: 0,
                a: 0,
            }),
{
    Raster { buf: image::RgbaImage::new(width, height) }
}

/// `ImageBuffer::from_raw`: accepts the samples exactly when `4 * width`
/// does not overflow `usize` and there are at least `4 * width * height` of
/// them, and then reads pixel `(x, y)` from the four samples that start at
/// `4 * (y * width + x)`. An accepted image fits in memory, as the vector
/// that holds it does.
#[verifier::external_body]
fn buffer_from_raw(width: u32, height: u32, data: Vec<u8>) -> (r: Option<Raster>)
    ensures
        r.is_some() <==> (4 * width <= usize::MAX && 4 * width * height <= data@.len()),
        r.is_some() ==> fits_in_memory(width as int, height as int),
        r matches Some(img) ==> raster_dimensions(img) == (width, height) && forall|x: int, y: int|
            0 <= x < width && 0 <= y < height ==> #[trigger] raster_pixels(img)[(x, y)] == pixel_in(
                data@,
                y * width + x,
            ),
{
    match image::RgbaImage::from_raw(width, height, data) {
        Some(buf) => Some(Raster { buf }),
        None => None,
    }
}

/// `ImageBuffer::into_raw`: the samples of the buffer, row by row, four for
/// each pixel. The vector may be longer than the image needs.
#[verifier::external_body]
fn buffer_into_raw(img: Raster) -> (data: Vec<u8>)
    ensures
        data@.len() >= 4 * raster_dimensions(img).0 * raster_dimensions(img).1,
        forall|x: int, y: int|
            0 <= x < raster_dimensions(img).0 && 0 <= y < raster_dimensions(img).1 ==> pixel_in(
                data@,
                y * raster_dimensions(img).0 + x,
            ) == #[trigger] raster_pixels(img)[(x, y)],
{
    img.buf.into_raw()
}

impl Raster {
    /// The view of every raster is well formed.
    pub proof fn lemma_view_wf(self)
        ensures
            self@.wf(),
    {
    }

    /// The width and height of the raster. A raster that exists fits in
    /// memory.
    pub fn dimensions(&self) -> (d: (u32, u32))
        ensures
            d.0 == self@.width,
            d.1 == self@.height,
            fits_in_memory(d.0 as int, d.1 as int),
    {
        buffer_dimensions(self)
    }

    /// The width of the raster.
    pub fn width(&self) -> (w: u32)
        ensures
            w == self@.width,
    {
        buffer_dimensions(self).0
    }

    /// The height of the raster.
    pub fn height(&self) -> (h: u32)
        ensures
            h == self@.height,
    {
        buffer_dimensions(self).1
    }

    /// A raster of the given dimensions with every channel of every pixel
    /// zero, or `None` when such a buffer cannot exist in memory. On a 32-bit
    /// machine that includes a raster too wide for its row to be counted,
    /// even where its height is zero.
    pub fn new(width: u32, height: u32) -> (r: Option<Raster>)
        ensures
            r.is_some() <==> fits_in_memory(width as int, height as int),
            r matches Some(img) ==> {
                &&& img@.width == width
                &&& img@.height == height
                &&& img@.wf()
                &&& forall|x: int, y: int| #[trigger]
                    img@.contains(x, y) ==> img@.at(x, y) == (Rgba8 { r: 0, g: 0, b: 0, a: 0 })
            },
    {
        let total: u64 = pixel_count(width, height);
        let limit: u64 = (isize::MAX as u64) / 4;
        let widest: u64 = (usize::MAX as u64) / 4;
        assert(4 * width * height == 4 * (width * height)) by (nonlinear_arith);
        if (width as u64) <= widest && total <= limit {
            Some(Raster::blank(width, height))
        } else {
            None
        }
    }

    /// A raster of dimensions that are known to fit in memory, with every
    /// channel of every pixel zero.
    pub(crate) fn blank(width: u32, height: u32) -> (img: Raster)
        requires
            fits_in_memory(width as int, height as int),
        ensures
            img@.width == width,
            img@.height == height,
            img@.wf(),
            forall|x: int, y: int| #[trigger]
                img@.contains(x, y) ==> img@.at(x, y) == (Rgba8 { r: 0, g: 0, b: 0, a: 0 }),
    {
        buffer_new(width, height)
    }

    /// A raster over raw samples, four for each pixel, row by row. `None`
    /// when `data` is shorter than `4 * width * height`, or when `4 * width`
    /// alone is more than a `usize` can hold.
    pub fn from_raw(width: u32, height: u32, data: Vec<u8>) -> (r: Option<Raster>)
        ensures
            r.is_some() <==> (4 * width <= usize::MAX && 4 * width * height <= data@.len()),
            r matches Some(img) ==> {
                &&& img@.width == width
                &&& img@.height == height
                &&& img@.wf()
                &&& forall|x: int, y: int| #[trigger]
                    img@.contains(x, y) ==> img@.at(x, y) == pixel_in(data@, y * width + x)
            },
    {
        buffer_from_raw(width, height, data)
    }

    /// The raw samples of the raster, four for each pixel, row by row.
    pub fn into_raw(self) -> (data: Vec<u8>)
        ensures
            data@.len() >= 4 * self@.width * self@.height,
            forall|x: int, y: int| #[trigger]
                self@.contains(x, y) ==> pixel_in(data@, y * self@.width + x) == self@.at(x, y),
    {
        buffer_into_raw(self)
    }

    /// The pixel at `(x, y)`, or `None` outside the raster.
    pub fn get_pixel(&self, x: u32, y: u32) -> (p: Option<Rgba8>)
        ensures
            p.is_some() <==> self@.contains(x as int, y as int),
            p matches Some(q) ==> q == self@.at(x as int, y as int),
    {
        let (w, h) = buffer_dimensions(self);
        if x < w && y < h {
            Some(buffer_get(self, x, y))
        } else {
            None
        }
    }

    /// Reads a pixel that is known to be inside the raster.
    pub(crate) fn read(&self, x: u32, y: u32) -> (p: Rgba8)
        requires
            self@.contains(x as int, y as int),
        ensures
            p == self@.at(x as int, y as int),
    {
        buffer_get(self, x, y)
    }

    /// Stores `p` at `(x, y)` and reports `true`, or leaves the raster as it
    /// is and reports `false` when `(x, y)` is outside it.
    pub fn put_pixel(&mut self, x: u32, y: u32, p: Rgba8) -> (stored: bool)
        ensures
            stored <==> old(self)@.contains(x as int, y as int),
            final(self)@.width == old(self)@.width,
            final(self)@.height == old(self)@.height,
            stored ==> final(self)@.pixels == old(self)@.pixels.insert((x as int, y as int), p),
            !stored ==> final(self)@ == old(self)@,
    {
        let (w, h) = buffer_dimensions(self);
        if x < w && y < h {
            self.write(x, y, p);
            true
        } else {
            false
        }
    }

    /// Stores a pixel at a coordinate that is known to be inside the raster.
    pub(crate) fn write(&mut self, x: u32, y: u32, p: Rgba8)
        requires
            old(self)@.contains(x as int, y as int),
        ensures
            final(self)@.width == old(self)@.width,
            final(self)@.height == old(self)@.height,
            final(self)@.pixels == old(self)@.pixels.insert((x as int, y as int), p),
    {
        buffer_put(self, x, y, p);
        assert(final(self)@.pixels =~= old(self)@.pixels.insert((x as int, y as int), p));
    }
}

/// The number of pixels of a `width` by `height` raster.
pub fn pixel_count(width: u32, height: u32) -> (n: u64)
    ensures
        n == width * height,
{
    assert(width * height <= u32::MAX * u32::MAX) by (nonlinear_arith)
        requires
            0 <= width <= u32::MAX,
            0 <= height <= u32::MAX,
    ;
    (width as u64) * (height as u64)
}

} // verus!
