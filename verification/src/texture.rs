//! Decoded texture grids and coordinate wrapping.
//!
//! A texture is a decoded 2D pixel grid, supplied by the embedding program
//! (file formats and decoding stay outside this crate). Sampling coordinates
//! arrive already scaled to texel units; they are folded into the grid's
//! bounds by a Euclidean remainder, so negative coordinates wrap around
//! instead of clamping.

use vstd::prelude::*;

use crate::color::Rgb8;

verus! {

/// Where a signed coordinate lands after folding into `[0, bound)`.
/// Spec-level `%` is the Euclidean remainder, so the result is non-negative
/// for every input whenever `bound` is positive.
pub open spec fn wrapped(coord: int, bound: int) -> int {
    coord % bound
}

/// Fold a signed texel coordinate into `[0, bound)`. A negative coordinate is
/// brought back into range by adding the bound, never clamped.
pub fn wrap(coord: i64, bound: u32) -> (r: u32)
    requires
        bound > 0,
    ensures
        r < bound,
        r as int == wrapped(coord as int, bound as int),
{
    proof {
        vstd::arithmetic::div_mod::lemma_mod_division_less_than_divisor(
            coord as int,
            bound as int,
        );
    }
    match coord.checked_rem_euclid(bound as i64) {
        Some(m) => m as u32,
        None => {
            // unreachable: the divisor is positive and the remainder fits
            proof {
                assert(false);
            }
            0
        },
    }
}

/// Law: folding is idempotent. A fold always lands in `[0, bound)`, and a
/// value already in that range folds to itself, so folding a second time
/// changes nothing.
pub proof fn lemma_wrap_idempotent(coord: int, bound: int)
    requires
        bound > 0,
    ensures
        0 <= wrapped(coord, bound) < bound,
        wrapped(wrapped(coord, bound), bound) == wrapped(coord, bound),
{
    vstd::arithmetic::div_mod::lemma_mod_division_less_than_divisor(coord, bound);
    vstd::arithmetic::div_mod::lemma_small_mod(wrapped(coord, bound) as nat, bound as nat);
}

/// A decoded texture: a `width` by `height` grid of pixels in row-major
/// order. Both dimensions are positive, so wrapped sampling is total.
pub struct Texture {
    pub width: u32,
    pub height: u32,
    pub texels: Vec<Rgb8>,
}

impl Texture {
    /// A well-formed texture: positive dimensions and exactly one texel per
    /// grid cell.
    pub open spec fn wf(&self) -> bool {
        &&& self.width > 0
        &&& self.height > 0
        &&& self.texels@.len() == self.width as int * self.height as int
    }

    /// The texel stored at in-bounds grid coordinates.
    pub open spec fn texel_at(&self, tx: int, ty: int) -> Rgb8 {
        self.texels@[ty * self.width as int + tx]
    }

    /// What sampling returns: the texel at the wrapped coordinates.
    pub open spec fn sample_spec(&self, cx: int, cy: int) -> Rgb8 {
        self.texel_at(wrapped(cx, self.width as int), wrapped(cy, self.height as int))
    }

    /// Assemble a texture from decoded pixels, rejecting dimensions that do
    /// not match the pixel count or a grid with an empty side.
    pub fn new(width: u32, height: u32, texels: Vec<Rgb8>) -> (r: Option<Texture>)
        ensures
            r is Some <==> width > 0 && height > 0 && texels@.len()
                == width as int * height as int,
            r matches Some(t) ==> t.wf() && t.width == width && t.height == height && t.texels@
                == texels@,
    {
        proof {
            vstd::arithmetic::mul::lemma_mul_upper_bound(
                width as int,
                0xffff_ffff,
                height as int,
                0xffff_ffff,
            );
        }
        if width > 0 && height > 0 && texels.len() as u64 == (width as u64) * (height as u64) {
            Some(Texture { width, height, texels })
        } else {
            None
        }
    }

    /// Sample the texture at signed texel coordinates, wrapping each axis
    /// into the grid's bounds.
    pub fn sample(&self, cx: i64, cy: i64) -> (r: Rgb8)
        requires
            self.wf(),
        ensures
            r == self.sample_spec(cx as int, cy as int),
    {
        let tx = wrap(cx, self.width);
        let ty = wrap(cy, self.height);
        let n = self.texels.len();
        proof {
            lemma_texel_index_in_bounds(tx as int, ty as int, self.width as int, self.height as int);
            assert((ty as int) * (self.width as int) + (tx as int) < (n as int));
        }
        self.texels[(ty as usize) * (self.width as usize) + (tx as usize)]
    }
}

/// An in-bounds grid coordinate pair addresses a row-major index below
/// `width * height`.
proof fn lemma_texel_index_in_bounds(tx: int, ty: int, width: int, height: int)
    by (nonlinear_arith)
    requires
        0 <= tx < width,
        0 <= ty < height,
    ensures
        0 <= ty * width + tx < width * height,
{
}

} // verus!
