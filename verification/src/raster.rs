//! The output raster: the image the render writes, pixel by pixel.
//!
//! A raster is a `width` by `height` grid of [`Rgb8`] pixels in row-major
//! order. It starts out filled with the background color; the render then
//! overwrites exactly the pixels whose rays hit something.

use vstd::prelude::*;

use crate::color::Rgb8;

verus! {

/// The output raster of one render: row-major pixels, one per grid cell.
pub struct Raster {
    pub width: u32,
    pub height: u32,
    pub pixels: Vec<Rgb8>,
}

impl Raster {
    /// A well-formed raster holds exactly one pixel per grid cell.
    pub open spec fn wf(&self) -> bool {
        self.pixels@.len() == self.width as int * self.height as int
    }

    /// The pixel stored at in-bounds coordinates.
    pub open spec fn pixel_at(&self, x: int, y: int) -> Rgb8 {
        self.pixels@[y * self.width as int + x]
    }

    /// A raster with every pixel set to the background color.
    pub fn new(width: u32, height: u32, background: Rgb8) -> (r: Raster)
        requires
            width as int * height as int <= usize::MAX,
        ensures
            r.wf(),
            r.width == width,
            r.height == height,
            forall|x: int, y: int|
                0 <= x < width && 0 <= y < height ==> r.pixel_at(x, y) == background,
    {
        let n: usize = (width as usize) * (height as usize);
        let mut pixels: Vec<Rgb8> = Vec::new();
        let mut i: usize = 0;
        while i < n
            invariant
                i <= n,
                pixels@.len() == i,
                forall|k: int| 0 <= k < i ==> pixels@[k] == background,
            decreases n - i,
        {
            pixels.push(background);
            i = i + 1;
        }
        let r = Raster { width, height, pixels };
        proof {
            assert forall|x: int, y: int|
                0 <= x < width && 0 <= y < height implies r.pixel_at(x, y) == background by {
                lemma_row_major_in_bounds(x, y, width as int, height as int);
            };
        }
        r
    }

    /// Overwrite the pixel at `(x, y)`, leaving every other pixel as it was.
    pub fn set_pixel(&mut self, x: u32, y: u32, color: Rgb8)
        requires
            old(self).wf(),
            x < old(self).width,
            y < old(self).height,
        ensures
            final(self).wf(),
            final(self).width == old(self).width,
            final(self).height == old(self).height,
            final(self).pixel_at(x as int, y as int) == color,
            forall|i: int, j: int|
                0 <= i < final(self).width && 0 <= j < final(self).height && !(i == x && j == y)
                    ==> final(self).pixel_at(i, j) == old(self).pixel_at(i, j),
    {
        let n = self.pixels.len();
        proof {
            lemma_row_major_in_bounds(x as int, y as int, self.width as int, self.height as int);
            assert((y as int) * (self.width as int) + (x as int) < (n as int));
        }
        let idx: usize = (y as usize) * (self.width as usize) + (x as usize);
        self.pixels.set(idx, color);
        proof {
            assert forall|i: int, j: int|
                0 <= i < self.width && 0 <= j < self.height && !(i == x && j == y)
                    implies self.pixel_at(i, j) == old(self).pixel_at(i, j) by {
                lemma_row_major_in_bounds(i, j, self.width as int, self.height as int);
                lemma_row_major_injective(i, j, x as int, y as int, self.width as int);
            };
        }
    }

    /// Read the pixel at `(x, y)`.
    pub fn get_pixel(&self, x: u32, y: u32) -> (r: Rgb8)
        requires
            self.wf(),
            x < self.width,
            y < self.height,
        ensures
            r == self.pixel_at(x as int, y as int),
    {
        let n = self.pixels.len();
        proof {
            lemma_row_major_in_bounds(x as int, y as int, self.width as int, self.height as int);
            assert((y as int) * (self.width as int) + (x as int) < (n as int));
        }
        self.pixels[(y as usize) * (self.width as usize) + (x as usize)]
    }

    /// Flatten the raster into raw bytes, three per pixel in channel order
    /// red, green, blue — the layout an image encoder takes.
    pub fn to_bytes(&self) -> (r: Vec<u8>)
        requires
            self.wf(),
            3 * self.pixels@.len() <= usize::MAX,
        ensures
            r@.len() == 3 * self.pixels@.len(),
            forall|k: int|
                0 <= k < self.pixels@.len() ==> {
                    &&& r@[3 * k] == self.pixels@[k].red
                    &&& r@[3 * k + 1] == self.pixels@[k].green
                    &&& r@[3 * k + 2] == self.pixels@[k].blue
                },
    {
        let n = self.pixels.len();
        let mut bytes: Vec<u8> = Vec::new();
        let mut i: usize = 0;
        while i < n
            invariant
                i <= n,
                n == self.pixels@.len(),
                3 * (n as int) <= usize::MAX,
                bytes@.len() == 3 * i,
                forall|k: int|
                    0 <= k < i ==> {
                        &&& bytes@[3 * k] == self.pixels@[k].red
                        &&& bytes@[3 * k + 1] == self.pixels@[k].green
                        &&& bytes@[3 * k + 2] == self.pixels@[k].blue
                    },
            decreases n - i,
        {
            let p = self.pixels[i];
            bytes.push(p.red);
            bytes.push(p.green);
            bytes.push(p.blue);
            i = i + 1;
        }
        bytes
    }
}

/// An in-bounds pixel coordinate pair addresses a row-major index below
/// `width * height`.
proof fn lemma_row_major_in_bounds(x: int, y: int, width: int, height: int)
    by (nonlinear_arith)
    requires
        0 <= x < width,
        0 <= y < height,
    ensures
        0 <= y * width + x < width * height,
{
}

/// Distinct in-bounds pixel coordinates address distinct row-major indices.
proof fn lemma_row_major_injective(x1: int, y1: int, x2: int, y2: int, width: int)
    by (nonlinear_arith)
    requires
        0 <= x1 < width,
        0 <= x2 < width,
        0 <= y1,
        0 <= y2,
        !(x1 == x2 && y1 == y2),
    ensures
        y1 * width + x1 != y2 * width + x2,
{
}

} // verus!
