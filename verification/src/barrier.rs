//! Barrier sequencing: the explicit memory/layout transitions that order
//! GPU-side accesses.
//!
//! Every cross-stage hazard of the frame is encoded as an explicit barrier
//! value. The builders here produce exactly the barriers of the required
//! sequence: the two buffer barriers around the uniform copy, the pair of
//! depth-image transitions that lend the depth image to the compute stage
//! and return it, and the one-time transition of the output image. A
//! [`LayoutTracker`] is the state machine against which a recorded sequence
//! can be checked: it holds the current layout of one image and applies
//! image barriers to it.

use vstd::prelude::*;

verus! {

/// Access-mode state of an image, which must match what the next GPU
/// operation expects.
#[derive(Clone, Copy, PartialEq, Eq, Structural, Debug)]
pub enum ImageLayout {
    /// Initial state of a freshly created image; contents undefined.
    Undefined,
    /// Shader read/write access (storage image).
    General,
    /// Read-only sampled access from a shader.
    ShaderReadOnlyOptimal,
    /// Depth attachment read/write access from the render pass.
    DepthStencilAttachmentOptimal,
}

/// Pipeline stage bounding one side of a barrier.
#[derive(Clone, Copy, PartialEq, Eq, Structural, Debug)]
pub enum PipelineStage {
    TopOfPipe,
    BottomOfPipe,
    Transfer,
    VertexInput,
    LateFragmentTests,
    ComputeShader,
}

/// Memory access kind bounding one side of a barrier.
#[derive(Clone, Copy, PartialEq, Eq, Structural, Debug)]
pub enum Access {
    /// No access in scope.
    NotAccessed,
    TransferWrite,
    ShaderRead,
    ShaderWrite,
    /// Depth/stencil attachment read and write, as the render pass uses it.
    DepthAttachmentReadWrite,
}

/// Subresource aspect of an image barrier.
#[derive(Clone, Copy, PartialEq, Eq, Structural, Debug)]
pub enum ImageAspect {
    Color,
    Depth,
}

/// A memory barrier on a buffer range.
#[derive(Clone, Copy, PartialEq, Eq, Structural, Debug)]
pub struct BufferBarrier {
    pub buffer: u64,
    pub src_stage: PipelineStage,
    pub dst_stage: PipelineStage,
    pub src_access: Access,
    pub dst_access: Access,
    pub offset: u64,
    pub size: u64,
}

/// A memory barrier and layout transition on an image.
#[derive(Clone, Copy, PartialEq, Eq, Structural, Debug)]
pub struct ImageBarrier {
    pub image: u64,
    pub aspect: ImageAspect,
    pub src_stage: PipelineStage,
    pub dst_stage: PipelineStage,
    pub src_access: Access,
    pub dst_access: Access,
    pub old_layout: ImageLayout,
    pub new_layout: ImageLayout,
}

/// Frame step 1: make the host write to the staging buffer visible to the
/// transfer stage before the device-side copy overwrites the device buffer.
pub open spec fn host_to_transfer_barrier_spec(buffer: u64, size: u64) -> BufferBarrier {
    BufferBarrier {
        buffer,
        src_stage: PipelineStage::BottomOfPipe,
        dst_stage: PipelineStage::Transfer,
        src_access: Access::NotAccessed,
        dst_access: Access::TransferWrite,
        offset: 0,
        size,
    }
}

/// Frame step 3: make the transfer write to the device buffer visible to
/// the shader's uniform read.
pub open spec fn transfer_to_shader_barrier_spec(buffer: u64, size: u64) -> BufferBarrier {
    BufferBarrier {
        buffer,
        src_stage: PipelineStage::Transfer,
        dst_stage: PipelineStage::VertexInput,
        src_access: Access::TransferWrite,
        dst_access: Access::ShaderRead,
        offset: 0,
        size,
    }
}

/// Frame step 4: hand the depth image from the render pass to the compute
/// stage, transitioning it to a shader-readable layout.
pub open spec fn depth_to_compute_barrier_spec(depth_image: u64) -> ImageBarrier {
    ImageBarrier {
        image: depth_image,
        aspect: ImageAspect::Depth,
        src_stage: PipelineStage::LateFragmentTests,
        dst_stage: PipelineStage::ComputeShader,
        src_access: Access::DepthAttachmentReadWrite,
        dst_access: Access::ShaderRead,
        old_layout: ImageLayout::DepthStencilAttachmentOptimal,
        new_layout: ImageLayout::ShaderReadOnlyOptimal,
    }
}

/// Frame step 6: return the depth image to the render pass, restoring its
/// attachment layout.
pub open spec fn depth_to_render_barrier_spec(depth_image: u64) -> ImageBarrier {
    ImageBarrier {
        image: depth_image,
        aspect: ImageAspect::Depth,
        src_stage: PipelineStage::ComputeShader,
        dst_stage: PipelineStage::LateFragmentTests,
        src_access: Access::ShaderRead,
        dst_access: Access::DepthAttachmentReadWrite,
        old_layout: ImageLayout::ShaderReadOnlyOptimal,
        new_layout: ImageLayout::DepthStencilAttachmentOptimal,
    }
}

/// One-time setup: transition the output storage image from its undefined
/// initial layout to general shader read/write access.
pub open spec fn setup_output_barrier_spec(output_image: u64) -> ImageBarrier {
    ImageBarrier {
        image: output_image,
        aspect: ImageAspect::Color,
        src_stage: PipelineStage::TopOfPipe,
        dst_stage: PipelineStage::ComputeShader,
        src_access: Access::NotAccessed,
        dst_access: Access::ShaderWrite,
        old_layout: ImageLayout::Undefined,
        new_layout: ImageLayout::General,
    }
}

/// Tracks the layout of a single image as barriers are applied: the
/// simulated state machine a recorded frame is checked against.
#[derive(Clone, Copy, PartialEq, Eq, Structural, Debug)]
pub struct LayoutTracker {
    /// The image whose layout is tracked.
    pub image: u64,
    /// Its current layout.
    pub layout: ImageLayout,
}

impl LayoutTracker {
    /// A barrier is consistent with the tracker when it either concerns
    /// another image or names the tracked image's current layout as the
    /// layout it transitions away from.
    pub open spec fn barrier_matches_spec(self, b: ImageBarrier) -> bool {
        b.image == self.image ==> b.old_layout == self.layout
    }

    /// The tracker after `b`: the tracked image takes the barrier's new
    /// layout; barriers on other images leave the tracker unchanged.
    pub open spec fn apply_spec(self, b: ImageBarrier) -> LayoutTracker {
        if b.image == self.image {
            LayoutTracker { image: self.image, layout: b.new_layout }
        } else {
            self
        }
    }

    /// Starts tracking `image` in layout `layout`.
    pub fn start(image: u64, layout: ImageLayout) -> (t: LayoutTracker)
        ensures
            t == (LayoutTracker { image, layout }),
    {
        LayoutTracker { image, layout }
    }

    /// Runtime check for `barrier_matches_spec`.
    pub fn barrier_matches(&self, b: &ImageBarrier) -> (ok: bool)
        ensures
            ok == self.barrier_matches_spec(*b),
    {
        b.image != self.image || b.old_layout == self.layout
    }

    /// Applies `b` to the tracker.
    pub fn apply(&mut self, b: &ImageBarrier)
        ensures
            *final(self) == old(self).apply_spec(*b),
    {
        if b.image == self.image {
            self.layout = b.new_layout;
        }
    }
}

} // verus!
