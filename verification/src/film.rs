//! # Buffers, pixels, and films.
//!
//! The building blocks for collecting radiance samples and turning them
//! into final images. [`Buffer`] is a heap-allocated rectangular grid of
//! pixels of any element type. A buffer of [`Pixel`] accumulators — a
//! [`Film`] — collects color samples per pixel as a running sum and a
//! sample count, and [`Buffer::to_snapshot`] derives the buffer of
//! averaged colors.
//!
//! Raster space runs from `(0, 0)` in the upper-left to
//! `(width-1, height-1)` in the lower right, row-major.

use vstd::prelude::*;

use crate::color::Color;
use crate::color::{CIE1931, LinearRGB};
use crate::geo::vector::{v3_add, v3_add_ok, V3};
use crate::scalar::{tdiv, Scalar};

verus! {

/// The mathematical model of one accumulator: the summed channels and
/// the sample count.
pub struct PixelV {
    pub sum: V3,
    pub count: int,
}

/// The mean an accumulator reports: the additive identity while no
/// sample has arrived, and the channel-wise truncated quotient of the
/// sum by the count afterwards.
pub open spec fn pixel_mean(p: PixelV) -> V3 {
    if p.count == 0 {
        V3 { x: 0, y: 0, z: 0 }
    } else {
        V3 {
            x: tdiv(p.sum.x, p.count),
            y: tdiv(p.sum.y, p.count),
            z: tdiv(p.sum.z, p.count),
        }
    }
}

/// A pixel that aggregates color samples from one color space.
#[derive(Debug, Clone, Copy, PartialEq)]
pub struct Pixel<CS> {
    sum: Color<CS>,
    count: u32,
}

impl<CS> View for Pixel<CS> {
    type V = PixelV;

    closed spec fn view(&self) -> PixelV {
        PixelV { sum: self.sum@, count: self.count as int }
    }
}

impl<CS> Pixel<CS> {
    /// The accumulator invariant: while no sample has arrived, the sum
    /// is the additive identity. Every constructor establishes it and
    /// every sample preserves it, so the mean is always the sum divided
    /// by the count clamped to one.
    pub open spec fn wf(&self) -> bool {
        self@.count == 0 ==> self@.sum == (V3 { x: 0, y: 0, z: 0 })
    }

    /// An accumulator that has received no samples.
    pub fn empty() -> (r: Pixel<CS>)
        ensures
            r@.count == 0,
            r@.sum == (V3 { x: 0, y: 0, z: 0 }),
            r.wf(),
    {
        Pixel { sum: Color::zero(), count: 0 }
    }

    /// Add a sample to this pixel: fold it into the running sum and
    /// count one more sample.
    pub fn add_sample(&mut self, sample: Color<CS>)
        requires
            v3_add_ok(old(self)@.sum, sample@),
            old(self)@.count < u32::MAX,
        ensures
            final(self)@.sum == v3_add(old(self)@.sum, sample@),
            final(self)@.count == old(self)@.count + 1,
            final(self).wf(),
    {
        let sum = self.sum.clone();
        self.sum = sum.add(sample);
        self.count = self.count + 1;
    }

    /// The number of samples received so far.
    pub fn count(&self) -> (r: u32)
        ensures
            r == self@.count,
    {
        self.count
    }

    /// Get the color value representing the mean over all samples, the
    /// additive identity if there are none. On an accumulator satisfying
    /// the invariant this is exactly the sum divided by the count
    /// clamped to one.
    pub fn to_color(&self) -> (r: Color<CS>)
        ensures
            r@ == pixel_mean(self@),
            self.wf() ==> ({
                let divisor = if self@.count == 0 { 1int } else { self@.count };
                r@ == (V3 {
                    x: tdiv(self@.sum.x, divisor),
                    y: tdiv(self@.sum.y, divisor),
                    z: tdiv(self@.sum.z, divisor),
                })
            }),
    {
        if self.count == 0 {
            Color::zero()
        } else {
            let v = self.sum.to_vector();
            Color::from_channels(
                v.x.div_int(self.count),
                v.y.div_int(self.count),
                v.z.div_int(self.count),
            )
        }
    }
}

impl<CS> Default for Pixel<CS> {
    /// An accumulator that has received no samples.
    fn default() -> (r: Pixel<CS>)
        ensures
            r@.count == 0,
            r@.sum == (V3 { x: 0, y: 0, z: 0 }),
            r.wf(),
    {
        Pixel::empty()
    }
}

/// A pixel that aggregates values to be averaged into a final color.
/// The counterpart of [`Pixel`] whose running total is exposed.
#[derive(Debug, Clone, Copy, PartialEq)]
pub struct FilmPixel<CS> {
    /// The running sum of samples.
    pub total: Color<CS>,
    /// How many samples the total holds.
    pub count: u32,
}

impl<CS> FilmPixel<CS> {
    /// An accumulator that has received no samples.
    pub fn empty() -> (r: FilmPixel<CS>)
        ensures
            r.count == 0,
            r.total@ == (V3 { x: 0, y: 0, z: 0 }),
    {
        FilmPixel { total: Color::zero(), count: 0 }
    }

    /// Add a value to be averaged in to the final color value.
    pub fn add_sample(&mut self, sample: Color<CS>)
        requires
            v3_add_ok(old(self).total@, sample@),
            old(self).count < u32::MAX,
        ensures
            final(self).total@ == v3_add(old(self).total@, sample@),
            final(self).count == old(self).count + 1,
    {
        let total = self.total.clone();
        self.total = total.add(sample);
        self.count = self.count + 1;
    }
}

/// A rectangular grid of pixels.
pub struct Buffer<P> {
    width: u32,
    height: u32,
    pixels: Vec<P>,
}

impl<P> Buffer<P> {
    /// The width of the buffer.
    pub closed spec fn spec_width(self) -> int {
        self.width as int
    }

    /// The height of the buffer.
    pub closed spec fn spec_height(self) -> int {
        self.height as int
    }

    /// The pixels in row-major order.
    pub closed spec fn spec_pixels(self) -> Seq<P> {
        self.pixels@
    }

    /// The shape invariant: one pixel per grid cell.
    pub open spec fn wf(self) -> bool {
        self.spec_pixels().len() == self.spec_width() * self.spec_height()
    }

    /// Create a new buffer with the given width and height, every cell
    /// initialized to `fill`.
    pub fn new_filled(width: u32, height: u32, fill: P) -> (r: Buffer<P>)
        where P: Copy
        requires
            width * height <= usize::MAX,
        ensures
            r.wf(),
            r.spec_width() == width,
            r.spec_height() == height,
            r.spec_pixels().len() == width * height,
            forall|i: int| 0 <= i < width * height ==> r.spec_pixels()[i] == fill,
    {
        let n: usize = (width as usize) * (height as usize);
        let mut pixels: Vec<P> = Vec::new();
        let mut i: usize = 0;
        while i < n
            invariant
                i <= n,
                pixels@.len() == i,
                forall|k: int| 0 <= k < i ==> pixels@[k] == fill,
            decreases n - i,
        {
            pixels.push(fill);
            i += 1;
        }
        Buffer { width, height, pixels }
    }

    /// The width of the buffer.
    pub fn width(&self) -> (r: u32)
        ensures
            r == self.spec_width(),
    {
        self.width
    }

    /// The height of the buffer.
    pub fn height(&self) -> (r: u32)
        ensures
            r == self.spec_height(),
    {
        self.height
    }

    /// The width and height of the buffer.
    pub fn dimensions(&self) -> (r: (u32, u32))
        ensures
            r.0 == self.spec_width(),
            r.1 == self.spec_height(),
    {
        (self.width, self.height)
    }

    /// The aspect ratio (width over height) of the buffer.
    pub fn aspect_ratio(&self) -> (r: Scalar)
        requires
            self.spec_height() > 0,
            self.spec_width() <= 0x7fff_ffff,
        ensures
            r@ == tdiv(self.spec_width() * (crate::scalar::SCALE as int), self.spec_height()),
    {
        Scalar::from_ratio(self.width as i64, self.height as i64)
    }

    /// The row-major cell index of raster position `(x, y)`.
    fn index_of(&self, x: u32, y: u32) -> (r: usize)
        requires
            self.wf(),
            x < self.spec_width(),
            y < self.spec_height(),
        ensures
            r == y * self.spec_width() + x,
            r < self.spec_pixels().len(),
    {
        let len = self.pixels.len();
        proof {
            lemma_raster_index_bound(
                x as int,
                y as int,
                self.spec_width(),
                self.spec_height(),
            );
        }
        (y as usize) * (self.width as usize) + (x as usize)
    }

    /// Get a pixel at the given `(x, y)` coordinates.
    pub fn get_pixel(&self, x: u32, y: u32) -> (r: &P)
        requires
            self.wf(),
            x < self.spec_width(),
            y < self.spec_height(),
        ensures
            *r == self.spec_pixels()[y * self.spec_width() + x],
    {
        let idx = self.index_of(x, y);
        &self.pixels[idx]
    }

    /// Get a mutable pixel at the given `(x, y)` coordinates.
    pub fn get_pixel_mut(&mut self, x: u32, y: u32) -> (r: &mut P)
        requires
            old(self).wf(),
            x < old(self).spec_width(),
            y < old(self).spec_height(),
        ensures
            *r == old(self).spec_pixels()[y * old(self).spec_width() + x],
            final(self).spec_pixels() == old(self).spec_pixels().update(
                y * old(self).spec_width() + x,
                *final(r),
            ),
            final(self).spec_width() == old(self).spec_width(),
            final(self).spec_height() == old(self).spec_height(),
            final(self).wf(),
    {
        let idx = self.index_of(x, y);
        &mut self.pixels[idx]
    }
}

/// A raster position indexes inside the grid: with `x < w` and `y < h`,
/// the row-major index `y * w + x` is below `w * h`.
proof fn lemma_raster_index_bound(x: int, y: int, w: int, h: int)
    requires
        0 <= x < w,
        0 <= y < h,
    ensures
        0 <= y * w + x < w * h,
{
    assert(y * w + x < w * h) by (nonlinear_arith)
        requires
            0 <= x < w,
            0 <= y < h,
    ;
    assert(y * w >= 0) by (nonlinear_arith)
        requires
            y >= 0,
            w > 0,
    ;
}

/// Convenience typedef for a buffer of accumulators in a color space.
pub type Film<CS> = Buffer<Pixel<CS>>;

/// A film with linear-RGB pixels.
pub type RGBFilm = Buffer<Pixel<LinearRGB>>;

/// A film with CIE-XYZ pixels.
pub type SpectralFilm = Buffer<Pixel<CIE1931>>;

impl<CS> Buffer<Pixel<CS>> {
    /// Create a film with the given resolution, all accumulators empty.
    pub fn new(width: u32, height: u32) -> (r: Film<CS>)
        requires
            width * height <= usize::MAX,
        ensures
            r.wf(),
            r.spec_width() == width,
            r.spec_height() == height,
            forall|i: int| 0 <= i < width * height ==> (#[trigger] r.spec_pixels()[i])@.count == 0
                && r.spec_pixels()[i]@.sum == (V3 { x: 0, y: 0, z: 0 }),
    {
        let n: usize = (width as usize) * (height as usize);
        let mut pixels: Vec<Pixel<CS>> = Vec::new();
        let mut i: usize = 0;
        while i < n
            invariant
                i <= n,
                pixels@.len() == i,
                forall|k: int| 0 <= k < i ==> (#[trigger] pixels@[k])@.count == 0
                    && pixels@[k]@.sum == (V3 { x: 0, y: 0, z: 0 }),
            decreases n - i,
        {
            pixels.push(Pixel::empty());
            i += 1;
        }
        Buffer { width, height, pixels }
    }

    /// Fold one sample into the accumulator at `(x, y)`.
    pub fn add_sample_at(&mut self, x: u32, y: u32, sample: Color<CS>)
        requires
            old(self).wf(),
            x < old(self).spec_width(),
            y < old(self).spec_height(),
            v3_add_ok(
                old(self).spec_pixels()[y * old(self).spec_width() + x]@.sum,
                sample@,
            ),
            old(self).spec_pixels()[y * old(self).spec_width() + x]@.count < u32::MAX,
        ensures
            final(self).wf(),
            final(self).spec_width() == old(self).spec_width(),
            final(self).spec_height() == old(self).spec_height(),
            final(self).spec_pixels().len() == old(self).spec_pixels().len(),
            ({
                let idx = y * old(self).spec_width() + x;
                let p = old(self).spec_pixels()[idx];
                let q = final(self).spec_pixels()[idx];
                &&& q@.sum == v3_add(p@.sum, sample@)
                &&& q@.count == p@.count + 1
                &&& forall|i: int| 0 <= i < old(self).spec_pixels().len() && i != idx
                    ==> final(self).spec_pixels()[i] == old(self).spec_pixels()[i]
            }),
    {
        proof {
            lemma_raster_index_bound(
                x as int,
                y as int,
                old(self).spec_width(),
                old(self).spec_height(),
            );
        }
        let p = self.get_pixel_mut(x, y);
        p.add_sample(sample);
    }

    /// Creates a snapshot of this buffer's values: the per-pixel means.
    pub fn to_snapshot(&self) -> (r: Buffer<Color<CS>>)
        requires
            self.wf(),
        ensures
            r.wf(),
            r.spec_width() == self.spec_width(),
            r.spec_height() == self.spec_height(),
            forall|i: int| 0 <= i < self.spec_pixels().len() ==> (
            #[trigger] r.spec_pixels()[i])@ == pixel_mean(self.spec_pixels()[i]@),
    {
        let mut pixels: Vec<Color<CS>> = Vec::new();
        let mut i: usize = 0;
        let n = self.pixels.len();
        while i < n
            invariant
                n == self.spec_pixels().len(),
                i <= n,
                pixels@.len() == i,
                forall|k: int| 0 <= k < i ==> (#[trigger] pixels@[k])@ == pixel_mean(
                    self.spec_pixels()[k]@,
                ),
            decreases n - i,
        {
            pixels.push(self.pixels[i].to_color());
            i += 1;
        }
        Buffer { width: self.width, height: self.height, pixels }
    }
}

} // verus!
