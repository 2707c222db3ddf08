//! The compute pipeline and the one binding of its layout.

use vstd::prelude::*;

verus! {

/// Path of the shader asset, relative to the asset root.
pub const SHADER_PATH: &'static str = "shader.wgsl";

/// Name of the shader function that the pipeline enters.
pub const ENTRY_POINT: &'static str = "init";

/// Debug label of the bind group layout.
pub const LAYOUT_LABEL: &'static str = "Image";

/// How a shader may touch a storage texture.
#[derive(Clone, Copy, Debug, PartialEq, Eq, Structural)]
pub enum StorageAccess {
    WriteOnly,
    ReadOnly,
    ReadWrite,
}

/// Texel formats that the image and its binding can have.
#[derive(Clone, Copy, Debug, PartialEq, Eq, Structural)]
pub enum TexelFormat {
    /// Four channels of eight bits, each read as a fraction of 255.
    Rgba8Unorm,
}

impl TexelFormat {
    /// Bytes that one texel takes.
    pub open spec fn texel_bytes(self) -> nat {
        match self {
            TexelFormat::Rgba8Unorm => 4,
        }
    }

    /// Bytes that one texel takes.
    pub fn pixel_size(self) -> (n: usize)
        ensures
            n == self.texel_bytes(),
    {
        match self {
            TexelFormat::Rgba8Unorm => 4,
        }
    }
}

/// The single entry of the bind group layout: a two-dimensional storage
/// texture, visible to the compute stage only.
#[derive(Clone, Copy, Debug, PartialEq, Eq, Structural)]
pub struct StorageBinding {
    pub binding: u32,
    pub format: TexelFormat,
    pub access: StorageAccess,
}

/// Everything the pipeline cache is asked for.
#[derive(Clone, Copy, Debug)]
pub struct PipelinePlan {
    pub layout_label: &'static str,
    pub binding: StorageBinding,
    pub shader_path: &'static str,
    pub entry_point: &'static str,
    pub push_constant_ranges: usize,
    pub shader_defs: usize,
    pub zero_initialize_workgroup_memory: bool,
}

/// The binding through which the shader reads and writes the image.
pub open spec fn image_binding() -> StorageBinding {
    StorageBinding { binding: 0, format: TexelFormat::Rgba8Unorm, access: StorageAccess::ReadWrite }
}

/// Describes the pipeline: the shader at `SHADER_PATH`, entered at
/// `ENTRY_POINT`, over a layout of exactly `image_binding()`, with no push
/// constants, no shader definitions, and workgroup memory left as it is.
pub fn pipeline_plan() -> (plan: PipelinePlan)
    ensures
        plan.layout_label@ == LAYOUT_LABEL@,
        plan.binding == image_binding(),
        plan.shader_path@ == SHADER_PATH@,
        plan.entry_point@ == ENTRY_POINT@,
        plan.push_constant_ranges == 0,
        plan.shader_defs == 0,
        !plan.zero_initialize_workgroup_memory,
{
    PipelinePlan {
        layout_label: LAYOUT_LABEL,
        binding: StorageBinding {
            binding: 0,
            format: TexelFormat::Rgba8Unorm,
            access: StorageAccess::ReadWrite,
        },
        shader_path: SHADER_PATH,
        entry_point: ENTRY_POINT,
        push_constant_ranges: 0,
        shader_defs: 0,
        zero_initialize_workgroup_memory: false,
    }
}

} // verus!
