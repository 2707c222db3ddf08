//! Sizes of the window, of the image behind it, and of the dispatch grid.

use vstd::prelude::*;

verus! {

/// Width and height of the window, in pixels.
pub const WINDOW: (u32, u32) = (1280, 720);

/// How many window pixels one texel of the image covers along each axis.
pub const DISPLAY_FACTOR: u32 = 4;

/// Width and height of the storage image, in texels.
pub const SIZE: (u32, u32) = (1280 / DISPLAY_FACTOR, 720 / DISPLAY_FACTOR);

/// Edge length of one square workgroup of the shader, in invocations.
pub const WORKGROUP_SIZE: u32 = 8;

/// The number of workgroups to dispatch along each axis.
#[derive(Clone, Copy, Debug, PartialEq, Eq, Structural)]
pub struct Workgroups {
    pub x: u32,
    pub y: u32,
    pub z: u32,
}

/// The grid of whole workgroups that fits into an image of `size` texels:
/// one layer deep, and along each axis as many groups as fit entirely.
pub open spec fn grid_for(size: (u32, u32), workgroup_size: u32) -> Workgroups {
    Workgroups { x: size.0 / workgroup_size, y: size.1 / workgroup_size, z: 1 }
}

/// Computes the dispatch grid for an image of `size` texels and square
/// workgroups of `workgroup_size` invocations per side.
///
/// Only whole workgroups are dispatched, so no invocation of the grid lies
/// outside the image, and fewer than `workgroup_size` columns and rows at the
/// far edges stay untouched.
pub fn workgroups(size: (u32, u32), workgroup_size: u32) -> (grid: Workgroups)
    requires
        workgroup_size > 0,
    ensures
        grid == grid_for(size, workgroup_size),
        grid.x * workgroup_size <= size.0 < (grid.x + 1) * workgroup_size,
        grid.y * workgroup_size <= size.1 < (grid.y + 1) * workgroup_size,
{
    let x: u32 = size.0 / workgroup_size;
    let y: u32 = size.1 / workgroup_size;
    proof {
        lemma_whole_groups(size.0 as int, workgroup_size as int);
        lemma_whole_groups(size.1 as int, workgroup_size as int);
    }
    Workgroups { x, y, z: 1 }
}

/// Whole groups of `d` never reach past `n`, and one more group always would.
pub proof fn lemma_whole_groups(n: int, d: int)
    requires
        0 <= n,
        0 < d,
    ensures
        (n / d) * d <= n < (n / d + 1) * d,
        0 <= n / d <= n,
{
    vstd::arithmetic::div_mod::lemma_fundamental_div_mod(n, d);
    vstd::arithmetic::div_mod::lemma_mod_bound(n, d);
    vstd::arithmetic::div_mod::lemma_div_pos_is_pos(n, d);
    assert((n / d + 1) * d == (n / d) * d + d) by (nonlinear_arith);
    assert(d * (n / d) == (n / d) * d) by (nonlinear_arith);
    assert(n / d <= n) by (nonlinear_arith)
        requires
            0 <= n / d,
            (n / d) * d <= n,
            0 < d,
    ;
}

} // verus!
