//! Dimension rules for the pyramid image and the dispatch grid.
//!
//! The mip-0 storage image uses a packing convention: its height is a power
//! of two and its width is 1.5 times the height, leaving room for later mip
//! levels to tile into the unused area. The compute dispatch covers the
//! square `mip0_dimension x mip0_dimension` region with 8x8 thread groups.

use vstd::prelude::*;

verus! {

/// Thread-group edge length of the mip-0 downsample program.
pub const GROUP_SIZE: u32 = 8;

/// `v` is a power of two (1, 2, 4, 8, ...).
pub open spec fn is_pow2(v: nat) -> bool
    decreases v,
{
    if v == 0 {
        false
    } else if v == 1 {
        true
    } else {
        v % 2 == 0 && is_pow2(v / 2)
    }
}

/// Runtime check for `is_pow2`.
pub fn check_pow2(v: u32) -> (b: bool)
    ensures
        b == is_pow2(v as nat),
{
    if v == 0 {
        return false;
    }
    let mut x: u32 = v;
    while x > 1
        invariant
            1 <= x <= v,
            is_pow2(v as nat) == is_pow2(x as nat),
        decreases x,
    {
        if x % 2 == 1 {
            return false;
        }
        x = x / 2;
    }
    true
}

/// The packing convention for the mip-0 image: height a power of two (at
/// least 2, so that the width is integral) and width exactly 1.5x the height.
pub open spec fn valid_pyramid_dims(width: nat, height: nat) -> bool {
    &&& is_pow2(height)
    &&& height >= 2
    &&& width * 2 == height * 3
}

/// Runtime check for `valid_pyramid_dims`.
pub fn check_pyramid_dims(width: u32, height: u32) -> (b: bool)
    ensures
        b == valid_pyramid_dims(width as nat, height as nat),
{
    if height < 2 {
        return false;
    }
    if !check_pow2(height) {
        return false;
    }
    let w2: u64 = (width as u64) * 2;
    let h3: u64 = (height as u64) * 3;
    w2 == h3
}

/// Pyramid image dimensions for a source depth image: the height is the
/// largest power of two not above the source height, and the width is 1.5x
/// that, per the packing convention.
pub fn pyramid_dimensions_for_source(source: (u32, u32)) -> (dims: (u32, u32))
    requires
        2 <= source.1 <= 0x8000_0000u32,
    ensures
        valid_pyramid_dims(dims.0 as nat, dims.1 as nat),
        dims.1 <= source.1,
        2 * dims.1 > source.1,
{
    let h = source.1;
    let mut p: u32 = 1;
    while p <= h / 2
        invariant
            2 <= h <= 0x8000_0000u32,
            1 <= p <= h,
            is_pow2(p as nat),
        decreases h - p,
    {
        p = p * 2;
    }
    assert(2 * p > h);
    assert(p >= 2);
    assert(p % 2 == 0);
    let w = p + p / 2;
    (w, p)
}

/// Grid size for the mip-0 dispatch: truncating division by the group size.
///
/// The truncation is deliberate, not an oversight: a dimension that is not a
/// multiple of 8 leaves a strip of output texels unwritten (783 yields 97
/// groups covering only 776 texels per axis). Callers that cannot accept
/// that must pass a multiple of `GROUP_SIZE`. A dimension below `GROUP_SIZE`
/// yields an empty grid; the pyramid rejects such a dimension rather than
/// record a degenerate dispatch.
pub fn dispatch_grid(mip0_dimension: u32) -> (grid: (u32, u32, u32))
    ensures
        grid.0 == mip0_dimension / GROUP_SIZE,
        grid.1 == mip0_dimension / GROUP_SIZE,
        grid.2 == 1,
{
    let d: u32 = mip0_dimension / GROUP_SIZE;
    (d, d, 1)
}

} // verus!
