//! The render-graph node: what it does on one frame.

use vstd::prelude::*;
use crate::layout::{grid_for, workgroups, Workgroups, SIZE, WORKGROUP_SIZE};

verus! {

/// Slot of the bind group that carries the storage image.
pub const IMAGE_BIND_GROUP: u32 = 0;

/// What the node records into the frame's command encoder.
#[derive(Clone, Copy, Debug, PartialEq, Eq, Structural)]
pub enum Pass {
    /// The pipeline is not compiled yet: nothing is recorded this frame.
    Skip,
    /// One compute pass: bind the image at `bind_group`, set the pipeline,
    /// dispatch `grid`.
    Dispatch { bind_group: u32, grid: Workgroups },
}

/// The pass for one frame, given whether the pipeline cache already holds
/// the compiled compute pipeline.
pub open spec fn pass_for(pipeline_ready: bool) -> Pass {
    if pipeline_ready {
        Pass::Dispatch { bind_group: IMAGE_BIND_GROUP, grid: grid_for(SIZE, WORKGROUP_SIZE) }
    } else {
        Pass::Skip
    }
}

/// The node that dispatches the compute shader over the storage image.
#[derive(Clone, Copy, Debug, PartialEq, Eq, Structural)]
pub struct ComputeShaderNode;

impl Default for ComputeShaderNode {
    fn default() -> (node: Self)
        ensures
            node == ComputeShaderNode,
    {
        ComputeShaderNode
    }
}

impl ComputeShaderNode {
    /// Decides what to record on this frame. A pipeline that is still
    /// compiling is no error: the frame is skipped and the node succeeds.
    pub fn run(&self, pipeline_ready: bool) -> (pass: Pass)
        ensures
            pass == pass_for(pipeline_ready),
            pipeline_ready <==> pass is Dispatch,
            pass is Dispatch ==> pass->grid == (Workgroups { x: 40, y: 22, z: 1 }),
    {
        if pipeline_ready {
            Pass::Dispatch { bind_group: IMAGE_BIND_GROUP, grid: workgroups(SIZE, WORKGROUP_SIZE) }
        } else {
            Pass::Skip
        }
    }
}

/// Every invocation of a dispatched grid addresses a texel of the image:
/// the grid spans at most `SIZE` invocations along each axis, and stops
/// short of it by less than one workgroup.
pub proof fn lemma_dispatch_inside_image(pipeline_ready: bool)
    ensures
        pass_for(pipeline_ready) matches Pass::Dispatch { grid, .. } ==> {
            &&& grid.x * WORKGROUP_SIZE <= SIZE.0 < (grid.x + 1) * WORKGROUP_SIZE
            &&& grid.y * WORKGROUP_SIZE <= SIZE.1 < (grid.y + 1) * WORKGROUP_SIZE
            &&& grid.z == 1
        },
{
}

} // verus!
