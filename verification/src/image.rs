//! The storage image that the shader paints, and the sprite that shows it.

use vstd::prelude::*;
use vstd::arithmetic::mul::lemma_mul_upper_bound;
use bevy::image::Image;
use crate::engine::{image_axes, image_data, image_extent, image_texel_bytes, image_usage, image_worlds};
use crate::engine::{new_fill, set_usage};
use crate::layout::{DISPLAY_FACTOR, SIZE, WINDOW};
use crate::pipeline::TexelFormat;

verus! {

/// Usage bit: the texture may be the destination of a copy.
pub const COPY_DST: u32 = 2;

/// Usage bit: the texture may be sampled through a texture binding.
pub const TEXTURE_BINDING: u32 = 4;

/// Usage bit: the texture may be bound as a storage texture.
pub const STORAGE_BINDING: u32 = 8;

/// Asset-usage bit: the asset is kept for the render world only.
pub const RENDER_WORLD: u8 = 2;

/// Number of axes of a texture.
#[derive(Clone, Copy, Debug, PartialEq, Eq, Structural)]
pub enum Dimension {
    D1,
    D2,
    D3,
}

impl Dimension {
    /// How many axes a texture of this dimension has.
    pub open spec fn axes(self) -> u32 {
        match self {
            Dimension::D1 => 1,
            Dimension::D2 => 2,
            Dimension::D3 => 3,
        }
    }
}

/// One texel of four eight-bit channels.
#[derive(Clone, Copy, Debug, PartialEq, Eq, Structural)]
pub struct Rgba {
    pub r: u8,
    pub g: u8,
    pub b: u8,
    pub a: u8,
}

impl Rgba {
    /// The channel at byte `i` of the texel: red, green, blue, alpha.
    pub open spec fn channel(self, i: int) -> u8 {
        if i == 0 {
            self.r
        } else if i == 1 {
            self.g
        } else if i == 2 {
            self.b
        } else {
            self.a
        }
    }
}

/// Everything that decides how the image is created.
#[derive(Clone, Copy, Debug, PartialEq, Eq, Structural)]
pub struct ImagePlan {
    pub width: u32,
    pub height: u32,
    pub depth_or_array_layers: u32,
    pub dimension: Dimension,
    pub format: TexelFormat,
    /// The colour of every texel before the first compute pass.
    pub fill: Rgba,
    /// Bits of the texture usages.
    pub usage: u32,
    /// Bits of the worlds that keep the asset.
    pub asset_usage: u8,
}

impl ImagePlan {
    /// Number of texels.
    pub open spec fn volume(self) -> nat {
        (self.width * self.height * self.depth_or_array_layers) as nat
    }

    /// Number of bytes of the texel data.
    pub open spec fn byte_len(self) -> nat {
        self.format.texel_bytes() * self.volume()
    }

    /// The image can be built: it has at least one texel, the texel count
    /// fits the 32 bits in which the engine computes it, and the data fits
    /// one allocation.
    pub open spec fn buildable(self) -> bool {
        &&& 0 < self.volume() <= u32::MAX
        &&& self.byte_len() <= isize::MAX
    }

    /// Tells whether `build` may be called.
    pub fn is_buildable(&self) -> (b: bool)
        ensures
            b == self.buildable(),
    {
        proof {
            lemma_volume(self.width as int, self.height as int, self.depth_or_array_layers as int);
            lemma_mul_upper_bound(self.width as int, u32::MAX as int, self.height as int, u32::MAX as int);
        }
        let area: u64 = (self.width as u64) * (self.height as u64);
        if area == 0 || area > u32::MAX as u64 || self.depth_or_array_layers == 0 {
            return false;
        }
        proof {
            lemma_mul_upper_bound(area as int, u32::MAX as int, self.depth_or_array_layers as int, u32::MAX as int);
        }
        let volume: u64 = area * (self.depth_or_array_layers as u64);
        if volume > u32::MAX as u64 {
            return false;
        }
        let bytes: u64 = (self.format.pixel_size() as u64) * volume;
        bytes <= isize::MAX as u64
    }

    /// The bytes of the freshly created image: `fill`, once per texel.
    pub open spec fn texels(self) -> Seq<u8> {
        Seq::new(self.byte_len(), |i: int| self.fill.channel(i % 4))
    }

    /// `image` is what this plan describes.
    pub open spec fn describes(self, image: Image) -> bool {
        &&& image_extent(image) == (self.width, self.height, self.depth_or_array_layers)
        &&& image_data(image) == self.texels()
        &&& image_usage(image) == self.usage
        &&& image_axes(image) == self.dimension.axes()
        &&& image_texel_bytes(image) == self.format.texel_bytes()
        &&& image_worlds(image) == self.asset_usage
    }

    /// Builds the image: filled with `fill`, then opened for `usage`.
    pub fn build(&self) -> (image: Image)
        requires
            self.buildable(),
        ensures
            self.describes(image),
    {
        let mut image = new_fill(self);
        set_usage(&mut image, self.usage);
        image
    }
}

/// A product of three counts is zero exactly when one of them is, and is
/// at least as large as the product of the first two otherwise.
pub proof fn lemma_volume(w: int, h: int, d: int)
    requires
        0 <= w,
        0 <= h,
        0 <= d,
    ensures
        w * h * d == 0 <==> (w * h == 0 || d == 0),
        d > 0 ==> w * h <= w * h * d,
        0 <= w * h,
{
    assert(0 <= w * h) by (nonlinear_arith)
        requires
            0 <= w,
            0 <= h,
    ;
    let a = w * h;
    assert(a * d == 0 <==> (a == 0 || d == 0)) by (nonlinear_arith)
        requires
            0 <= a,
            0 <= d,
    ;
    assert(d > 0 ==> a <= a * d) by (nonlinear_arith)
        requires
            0 <= a,
            0 <= d,
    ;
}

/// The plan of the program's one image: `SIZE` texels in a single layer,
/// opaque red, usable as copy destination, storage binding and texture
/// binding, kept in the render world.
pub open spec fn storage_image_plan() -> ImagePlan {
    ImagePlan {
        width: SIZE.0,
        height: SIZE.1,
        depth_or_array_layers: 1,
        dimension: Dimension::D2,
        format: TexelFormat::Rgba8Unorm,
        fill: Rgba { r: 255, g: 0, b: 0, a: 255 },
        usage: COPY_DST | STORAGE_BINDING | TEXTURE_BINDING,
        asset_usage: RENDER_WORLD,
    }
}

/// Returns `storage_image_plan()`.
pub fn image_plan() -> (plan: ImagePlan)
    ensures
        plan == storage_image_plan(),
        plan.usage == 14,
        plan.buildable(),
        plan.texels().len() == 230400,
{
    let usage: u32 = COPY_DST | STORAGE_BINDING | TEXTURE_BINDING;
    assert(usage == 14) by (bit_vector)
        requires
            usage == 2u32 | 8u32 | 4u32,
    ;
    assert(SIZE.0 == 320 && SIZE.1 == 180);
    assert(storage_image_plan().volume() == 320 * 180 * 1);
    ImagePlan {
        width: SIZE.0,
        height: SIZE.1,
        depth_or_array_layers: 1,
        dimension: Dimension::D2,
        format: TexelFormat::Rgba8Unorm,
        fill: Rgba { r: 255, g: 0, b: 0, a: 255 },
        usage,
        asset_usage: RENDER_WORLD,
    }
}

/// Creates the program's image.
pub fn storage_image() -> (image: Image)
    ensures
        storage_image_plan().describes(image),
        image_extent(image) == (320u32, 180u32, 1u32),
        image_data(image).len() == 230400,
        image_usage(image) == 14,
{
    image_plan().build()
}

/// Where and how large the image is shown.
#[derive(Clone, Copy, Debug, PartialEq, Eq, Structural)]
pub struct SpritePlan {
    /// Width of the sprite before scaling: one unit per texel.
    pub width: u32,
    /// Height of the sprite before scaling.
    pub height: u32,
    /// Uniform scale of the sprite's transform.
    pub scale: u32,
}

/// The sprite has the image's size and is scaled by `DISPLAY_FACTOR`, so
/// that on screen it covers the window exactly.
pub fn sprite_plan() -> (sprite: SpritePlan)
    ensures
        sprite == (SpritePlan { width: SIZE.0, height: SIZE.1, scale: DISPLAY_FACTOR }),
        sprite.width * sprite.scale == WINDOW.0,
        sprite.height * sprite.scale == WINDOW.1,
{
    assert(SIZE.0 == 320 && SIZE.1 == 180 && DISPLAY_FACTOR == 4);
    SpritePlan { width: SIZE.0, height: SIZE.1, scale: DISPLAY_FACTOR }
}

} // verus!
