//! Thread-group grids: how many workgroups cover a render target.

use vstd::prelude::*;

verus! {

/// Size of the demo render target, width and height in compute threads.
pub const COMPUTE_IMG_SIZE: (u32, u32) = (640, 480);

/// Threads per workgroup along each of the two axes.
pub const WORKGROUP_SIZE: u32 = 8;

/// The least number of groups of `group` threads that cover `extent` threads.
pub open spec fn ceil_div(extent: int, group: int) -> int
    recommends
        extent >= 0,
        group > 0,
{
    if extent % group == 0 {
        extent / group
    } else {
        extent / group + 1
    }
}

/// A dispatch size, counted in workgroups along each axis.
#[derive(Clone, Copy, Debug, PartialEq, Eq, Structural)]
pub struct DispatchGrid {
    pub x: u32,
    pub y: u32,
    pub z: u32,
}

/// The grid that covers a `width` by `height` target with square groups.
pub open spec fn grid_for(width: u32, height: u32, group: u32) -> DispatchGrid {
    DispatchGrid {
        x: ceil_div(width as int, group as int) as u32,
        y: ceil_div(height as int, group as int) as u32,
        z: 1,
    }
}

/// `ceil_div(extent, group)` is the one count whose groups reach the end of
/// the extent while one group fewer would fall short of it.
pub proof fn lemma_ceil_div_is_least_cover(extent: int, group: int)
    requires
        extent >= 0,
        group > 0,
    ensures
        0 <= ceil_div(extent, group) <= extent,
        ceil_div(extent, group) * group >= extent,
        (ceil_div(extent, group) - 1) * group < extent || extent == 0,
        extent == 0 ==> ceil_div(extent, group) == 0,
{
    let q = extent / group;
    let r = extent % group;
    assert(extent == group * q + r && 0 <= r < group) by {
        vstd::arithmetic::div_mod::lemma_fundamental_div_mod(extent, group);
        vstd::arithmetic::div_mod::lemma_mod_bound(extent, group);
    }
    assert(0 <= q <= extent) by (nonlinear_arith)
        requires
            extent == group * q + r,
            0 <= r < group,
            extent >= 0,
            group > 0,
    ;
    let c = ceil_div(extent, group);
    assert(c * group >= extent && ((c - 1) * group < extent || extent == 0) && c <= extent)
        by (nonlinear_arith)
        requires
            extent == group * q + r,
            0 <= r < group,
            0 <= q <= extent,
            group > 0,
            c == (if r == 0 { q } else { q + 1 }),
    ;
}

/// Counts the groups of `group` threads needed to cover `extent` threads.
pub fn groups_to_cover(extent: u32, group: u32) -> (count: u32)
    requires
        group > 0,
    ensures
        count == ceil_div(extent as int, group as int),
{
    proof {
        lemma_ceil_div_is_least_cover(extent as int, group as int);
    }
    let whole: u32 = extent / group;
    if extent % group == 0 {
        whole
    } else {
        whole + 1
    }
}

/// Computes the dispatch grid for a two-dimensional target: one layer of
/// groups, as many along each axis as it takes to cover the target.
pub fn dispatch_grid(width: u32, height: u32, group: u32) -> (grid: DispatchGrid)
    requires
        group > 0,
    ensures
        grid == grid_for(width, height, group),
        grid.x == ceil_div(width as int, group as int),
        grid.y == ceil_div(height as int, group as int),
        grid.z == 1,
{
    proof {
        lemma_ceil_div_is_least_cover(width as int, group as int);
        lemma_ceil_div_is_least_cover(height as int, group as int);
    }
    DispatchGrid { x: groups_to_cover(width, group), y: groups_to_cover(height, group), z: 1 }
}

} // verus!
