//! Single-mip hierarchical depth ("depth pyramid") core for GPU occlusion
//! culling.
//!
//! The component downsamples a renderer's depth buffer into a
//! compute-writable storage image. The hard part is sequencing GPU-side
//! hazards: the depth image is borrowed from the render pass, handed to the
//! compute stage, and returned, with explicit barriers around a per-frame
//! uniform upload and compute dispatch. This crate verifies that logic over
//! an explicit model of the device: commands are recorded as plain values,
//! image layouts are tracked by a state machine, and allocations are counted
//! by a fake allocator, so that the barrier ordering, the uniform round trip,
//! and teardown can be stated and proved.

use vstd::prelude::*;

pub mod allocator;
pub mod barrier;
pub mod binder;
pub mod commands;
pub mod dims;
pub mod pyramid;
pub mod stager;
pub mod uniforms;

verus! {

} // verus!
