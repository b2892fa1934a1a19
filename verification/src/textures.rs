//! Textures: spatially varying colour sources for materials.
//!
//! The closed set is a solid colour, a checker pattern over two child
//! textures, and an image sampled from raw RGB bytes.  Decoding an image
//! file into those bytes is the caller's business; the lookup arithmetic is
//! verified here.

use vstd::prelude::*;
use crate::fx::fdiv128;
use crate::fx::FX_ONE;
use crate::fx::FX_PI;
use crate::math::vec::Vec2;
use crate::math::vec::Vec3;

verus! {

#[derive(Clone, Copy, Debug, PartialEq, Eq, Structural)]
pub struct SolidColor {
    pub color: Vec3,
}

impl SolidColor {
    pub fn new(color: Vec3) -> (r: Self)
        ensures
            r == (SolidColor { color }),
    {
        SolidColor { color }
    }

    pub fn value(&self, _uv: Vec2, _p: Vec3) -> (r: Vec3)
        ensures
            r == self.color,
    {
        self.color
    }
}

pub struct CheckerTexture {
    pub odd: Box<Texture>,
    pub even: Box<Texture>,
}

/// Index of the stripe of width pi/10 that a coordinate falls in.  The sign
/// of sin(10 c) alternates with this index, which is how the checker pattern
/// chooses between its two children.
pub open spec fn stripe(c: int) -> int {
    (10 * c) / (FX_PI as int)
}

/// Whether the product of the three stripe signs is negative.
pub open spec fn checker_is_odd(p: Vec3) -> bool {
    (stripe(p.x as int) + stripe(p.y as int) + stripe(p.z as int)) % 2 == 1
}

impl CheckerTexture {
    pub fn new(odd: Texture, even: Texture) -> (r: Self)
        ensures
            *r.odd == odd,
            *r.even == even,
    {
        CheckerTexture { odd: Box::new(odd), even: Box::new(even) }
    }
}

pub struct ImageTexture {
    pub data: Vec<u8>,
    pub width: u32,
    pub height: u32,
    pub bytes_per_scanline: u32,
}

/// Clamp a fixed-point coordinate into `[0, 1]`.
pub open spec fn clamp01(c: int) -> int {
    if c < 0 {
        0
    } else if c > FX_ONE as int {
        FX_ONE as int
    } else {
        c
    }
}

impl ImageTexture {
    /// The stored bytes describe a `width` by `height` grid of RGB texels.
    pub open spec fn wf(self) -> bool {
        &&& self.width > 0
        &&& self.height > 0
        &&& self.bytes_per_scanline == 3 * self.width
        &&& self.data@.len() == self.height * self.bytes_per_scanline
        &&& 3 * self.width * self.height <= u32::MAX
    }

    /// Wrap already-decoded RGB bytes, row-major, three bytes per texel.
    pub fn new(data: Vec<u8>, width: u32, height: u32) -> (r: Self)
        requires
            width > 0,
            height > 0,
            3 * width * height <= u32::MAX,
            data@.len() == height * (3 * width),
        ensures
            r.wf(),
            r.data == data,
            r.width == width,
            r.height == height,
    {
        proof {
            lemma_image_layout(width as int, height as int);
        }
        assert(3 * width <= u32::MAX) by (nonlinear_arith)
            requires
                height >= 1,
                3 * width as int * height as int <= u32::MAX,
                width >= 1,
        ;
        let bytes_per_scanline = 3 * width;
        ImageTexture { data, width, height, bytes_per_scanline }
    }

    /// Column of the texel under horizontal coordinate `u`.
    pub open spec fn col_spec(self, u: int) -> int {
        let i = clamp01(u) * self.width / (FX_ONE as int);
        if i >= self.width { self.width - 1 } else { i }
    }

    /// Row of the texel under vertical coordinate `v` (images store the top
    /// row first, so `v` is flipped).
    pub open spec fn row_spec(self, v: int) -> int {
        let j = (FX_ONE - clamp01(v)) * self.height / (FX_ONE as int);
        if j >= self.height { self.height - 1 } else { j }
    }

    /// A byte scaled from `[0, 255]` to fixed-point `[0, 1]`.
    pub open spec fn texel_channel(self, k: int) -> int {
        self.data@[k] * (FX_ONE as int) / 255
    }

    pub open spec fn value_spec(self, uv: Vec2) -> Vec3 {
        let idx = self.row_spec(uv.y as int) * self.bytes_per_scanline + self.col_spec(
            uv.x as int) * 3;
        Vec3::v3(
            self.texel_channel(idx),
            self.texel_channel(idx + 1),
            self.texel_channel(idx + 2),
        )
    }

    pub fn value(&self, uv: Vec2, _p: Vec3) -> (r: Vec3)
        requires
            self.wf(),
        ensures
            r == self.value_spec(uv),
    {
        let uu: u64 = clamp01_exec(uv.x) as u64;
        let vv: u64 = (FX_ONE - clamp01_exec(uv.y)) as u64;

        assert(uu * (self.width as u64) <= u64::MAX) by (nonlinear_arith)
            requires
                uu <= 65536,
                self.width as u64 <= 0xffff_ffffu64,
        ;
        let mut i: u64 = uu * (self.width as u64) / 65536;
        if i >= self.width as u64 {
            i = self.width as u64 - 1;
        }
        assert(vv * (self.height as u64) <= u64::MAX) by (nonlinear_arith)
            requires
                vv <= 65536,
                self.height as u64 <= 0xffff_ffffu64,
        ;
        let mut j: u64 = vv * (self.height as u64) / 65536;
        if j >= self.height as u64 {
            j = self.height as u64 - 1;
        }

        proof {
            lemma_image_index(
                self.width as int, self.height as int, i as int, j as int);
            assert(self.data@.len() == (self.height as int) * (3 * self.width as int));
        }
        let idx: usize = (j * (self.bytes_per_scanline as u64) + i * 3) as usize;
        let c0 = self.data[idx];
        let c1 = self.data[idx + 1];
        let c2 = self.data[idx + 2];
        Vec3 {
            x: channel_scale(c0),
            y: channel_scale(c1),
            z: channel_scale(c2),
        }
    }
}

fn clamp01_exec(c: i64) -> (r: i64)
    ensures
        r as int == clamp01(c as int),
{
    if c < 0 {
        0
    } else if c > FX_ONE {
        FX_ONE
    } else {
        c
    }
}

fn channel_scale(b: u8) -> (r: i64)
    ensures
        r as int == b * (FX_ONE as int) / 255,
{
    ((b as u64) * 65536 / 255) as i64
}

/// Texel (i, j) of a w-by-h RGB grid starts strictly inside the byte array.
proof fn lemma_image_index(w: int, h: int, i: int, j: int) by (nonlinear_arith)
    requires
        0 <= i < w,
        0 <= j < h,
    ensures
        0 <= j * (3 * w) + i * 3,
        j * (3 * w) + i * 3 + 2 < h * (3 * w),
        h * (3 * w) == 3 * w * h,
{
}

proof fn lemma_image_layout(w: int, h: int) by (nonlinear_arith)
    ensures
        h * (3 * w) == 3 * w * h,
{
}

pub enum Texture {
    Solid(SolidColor),
    Checker(CheckerTexture),
    Image(ImageTexture),
}

impl Texture {
    /// Every image texture in the tree carries consistent dimensions.
    pub open spec fn wf(self) -> bool
        decreases self,
    {
        match self {
            Texture::Solid(_) => true,
            Texture::Checker(c) => c.odd.wf() && c.even.wf(),
            Texture::Image(t) => t.wf(),
        }
    }

    /// The colour of the texture at surface coordinates `uv` and point `p`.
    pub open spec fn value_spec(self, uv: Vec2, p: Vec3) -> Vec3
        decreases self,
    {
        match self {
            Texture::Solid(s) => s.color,
            Texture::Checker(c) => if checker_is_odd(p) {
                c.odd.value_spec(uv, p)
            } else {
                c.even.value_spec(uv, p)
            },
            Texture::Image(t) => t.value_spec(uv),
        }
    }

    pub fn value(&self, uv: Vec2, p: Vec3) -> (r: Vec3)
        requires
            self.wf(),
        ensures
            r == self.value_spec(uv, p),
        decreases *self,
    {
        match self {
            Texture::Solid(s) => s.value(uv, p),
            Texture::Checker(c) => {
                let sx = stripe_exec(p.x);
                let sy = stripe_exec(p.y);
                let sz = stripe_exec(p.z);
                let s: i128 = sx as i128 + sy as i128 + sz as i128;
                let half = fdiv128(s, 2);
                proof {
                    vstd::arithmetic::div_mod::lemma_fundamental_div_mod(s as int, 2);
                }
                if s - 2 * half == 1 {
                    c.odd.value(uv, p)
                } else {
                    c.even.value(uv, p)
                }
            },
            Texture::Image(t) => t.value(uv, p),
        }
    }

}

fn stripe_exec(c: i64) -> (r: i64)
    ensures
        r as int == stripe(c as int),
{
    let q = fdiv128(10 * (c as i128), FX_PI as i128);
    proof {
        lemma_stripe_small(c as int, q as int);
    }
    q as i64
}

/// Stripe indices of `i64` coordinates fit back into an `i64`.
proof fn lemma_stripe_small(c: int, q: int) by (nonlinear_arith)
    requires
        -0x8000_0000_0000_0000 <= c <= 0x7fff_ffff_ffff_ffff,
        q == (10 * c) / (FX_PI as int),
    ensures
        -0x8000_0000_0000_0000 <= q <= 0x7fff_ffff_ffff_ffff,
{
}

} // verus!
