//! The engine's image type, and the two calls on it that the library makes.
//!
//! Nothing in this file is proved: each contract restates what the engine's
//! source does.

use vstd::prelude::*;
use bevy::asset::RenderAssetUsages;
use bevy::image::Image;
use bevy::render::render_resource::{Extent3d, TextureDimension, TextureFormat, TextureUsages};
use crate::image::{Dimension, ImagePlan};
use crate::pipeline::TexelFormat;

verus! {

/// The engine's CPU-side image: texel bytes with a texture descriptor.
#[verifier::external_type_specification]
#[verifier::external_body]
pub struct ExImage(bevy::image::Image);

/// Width, height and depth (or layer count) in the image's descriptor.
pub uninterp spec fn image_extent(image: Image) -> (u32, u32, u32);

/// The texel bytes that the image holds on the CPU side; empty where it
/// holds none.
pub uninterp spec fn image_data(image: Image) -> Seq<u8>;

/// Bits of the texture usages in the image's descriptor.
pub uninterp spec fn image_usage(image: Image) -> u32;

/// Number of axes of the texture dimension in the image's descriptor.
pub uninterp spec fn image_axes(image: Image) -> u32;

/// Bytes that one texel of the image's format takes.
pub uninterp spec fn image_texel_bytes(image: Image) -> nat;

/// Bits of the worlds that keep the image.
pub uninterp spec fn image_worlds(image: Image) -> u8;

/// Calls `Image::new_fill`. The engine stores extent, dimension, format and
/// keeping worlds as given, and fills the data with the pixel's bytes,
/// repeated up to the pixel size times the texel count. It computes the
/// texel count in 32 bits, and in debug builds rejects a pixel longer than
/// the whole buffer.
#[verifier::external_body]
pub(crate) fn new_fill(plan: &ImagePlan) -> (image: Image)
    requires
        plan.buildable(),
    ensures
        image_extent(image) == (plan.width, plan.height, plan.depth_or_array_layers),
        image_data(image) == plan.texels(),
        image_axes(image) == plan.dimension.axes(),
        image_texel_bytes(image) == plan.format.texel_bytes(),
        image_worlds(image) == plan.asset_usage,
{
    let size = Extent3d {
        width: plan.width,
        height: plan.height,
        depth_or_array_layers: plan.depth_or_array_layers,
    };
    let dimension = match plan.dimension {
        Dimension::D1 => TextureDimension::D1,
        Dimension::D2 => TextureDimension::D2,
        Dimension::D3 => TextureDimension::D3,
    };
    let format = match plan.format { TexelFormat::Rgba8Unorm => TextureFormat::Rgba8Unorm };
    let pixel = [plan.fill.r, plan.fill.g, plan.fill.b, plan.fill.a];
    let worlds = RenderAssetUsages::from_bits_retain(plan.asset_usage);
    Image::new_fill(size, dimension, &pixel, format, worlds)
}

/// Stores `TextureUsages::from_bits_retain(bits)` in the image's
/// descriptor. The conversion keeps every bit; nothing else in the image
/// is touched.
#[verifier::external_body]
pub(crate) fn set_usage(image: &mut Image, bits: u32)
    ensures
        image_usage(*final(image)) == bits,
        image_extent(*final(image)) == image_extent(*old(image)),
        image_data(*final(image)) == image_data(*old(image)),
        image_axes(*final(image)) == image_axes(*old(image)),
        image_texel_bytes(*final(image)) == image_texel_bytes(*old(image)),
        image_worlds(*final(image)) == image_worlds(*old(image)),
{
    image.texture_descriptor.usage = TextureUsages::from_bits_retain(bits);
}

} // verus!
