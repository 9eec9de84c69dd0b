//! The depth pyramid instance: construction, per-frame recording, teardown.
//!
//! Lifecycle: `new` creates every GPU object at once (all-or-nothing),
//! `gpu_setup` records the one-time transition of the output image to its
//! shader-writable layout, then each frame stages uniforms with `update` and
//! records the barrier/copy/dispatch sequence with `gpu_draw`; `destroy`
//! releases every object exactly once. `Destroyed` is terminal: no operation
//! is valid afterward, which the preconditions enforce.

use vstd::prelude::*;
use crate::allocator::FakeAllocator;
use crate::allocator::GpuImage;
use crate::allocator::ImageFormat;
use crate::barrier::ImageLayout;
use crate::barrier::LayoutTracker;
use crate::barrier::depth_to_compute_barrier_spec;
use crate::barrier::depth_to_render_barrier_spec;
use crate::barrier::host_to_transfer_barrier_spec;
use crate::barrier::setup_output_barrier_spec;
use crate::barrier::transfer_to_shader_barrier_spec;
use crate::binder::BindingSet;
use crate::binder::DescriptorPool;
use crate::binder::bind;
use crate::commands::Command;
use crate::commands::CommandRecorder;
use crate::commands::apply_command_layout;
use crate::commands::command_layout_ok;
use crate::commands::layout_after;
use crate::commands::layouts_ok;
use crate::commands::lemma_layout_after_concat;
use crate::commands::lemma_layouts_ok_concat;
use crate::dims::GROUP_SIZE;
use crate::dims::check_pyramid_dims;
use crate::dims::valid_pyramid_dims;
use crate::stager::UniformStager;
use crate::stager::same_buffer;
use crate::stager::same_buffer_shape;
use crate::uniforms::DepthPyramidMip0Uniforms;
use crate::uniforms::MIP0_UNIFORM_BYTES;
use crate::uniforms::mip0_uniform_bytes;

verus! {

/// Where the instance stands in its lifecycle.
#[derive(Clone, Copy, PartialEq, Eq, Structural, Debug)]
pub enum PyramidState {
    /// Resources and bindings are ready; frames may be recorded.
    Constructed,
    /// Terminal: every object has been released.
    Destroyed,
}

/// A failure surfaced synchronously by the call that triggered it.
#[derive(Clone, Copy, PartialEq, Eq, Structural, Debug)]
pub enum DepthPyramidError {
    /// The requested image extent breaks the packing convention.
    InvalidDimensions,
    /// A buffer or image allocation failed at construction.
    AllocationFailed,
    /// Creating a pipeline object (sampler, view, layouts, shader module,
    /// pipeline) failed at construction.
    PipelineCreationFailed,
    /// A dispatch was requested with a degenerate target dimension: zero,
    /// or small enough that truncating division yields an empty grid.
    InvalidDispatchDimension,
}

/// Number of GPU objects one pyramid instance owns and must release.
pub const OBJECT_COUNT: u64 = 9;

/// The single-mip depth pyramid. All objects are created at construction,
/// owned exclusively for the instance's lifetime, and destroyed as a unit.
#[derive(Debug)]
pub struct DepthPyramid {
    /// Pipeline layout of the compute pass.
    pub pipeline_layout: u64,
    /// The staging/device uniform buffer pair.
    pub stager: UniformStager,
    /// The mip-0 storage image.
    pub image: GpuImage,
    /// Sampler for the sampled depth input.
    pub sampler: u64,
    /// View of the storage image, exposed read-only to later stages.
    pub view: u64,
    /// Layout the descriptor set was allocated with.
    pub desc_set_layout: u64,
    /// The downsample compute pipeline.
    pub compute_pipeline: u64,
    /// Shader module of the downsample program.
    pub compute_shader_module: u64,
    /// The fixed 3-slot binding set.
    pub binding_set: BindingSet,
    /// Tracked layout of the output storage image.
    pub output_layout: ImageLayout,
    /// Whether uniforms have been staged since the last recorded frame:
    /// each frame must stage before it dispatches.
    pub staged: bool,
    /// Lifecycle state.
    pub state: PyramidState,
}

impl DepthPyramid {
    /// Handles of the nine objects the instance owns, in creation order.
    pub open spec fn ids(self) -> Seq<u64> {
        seq![
            self.stager.uniform_buffer.id,
            self.stager.uniform_buffer_gpu.id,
            self.image.id,
            self.sampler,
            self.view,
            self.desc_set_layout,
            self.pipeline_layout,
            self.compute_shader_module,
            self.compute_pipeline,
        ]
    }

    /// Every owned handle is live in `a`.
    pub open spec fn live_in(self, a: FakeAllocator) -> bool {
        forall|k: int| 0 <= k < OBJECT_COUNT ==> a.is_live(#[trigger] self.ids()[k])
    }

    /// Well-formedness: the stager pair is intact, the image follows the
    /// packing convention with one mip level and one layer of the 32-bit
    /// float format, the binding set names this instance's own objects, and
    /// the nine handles are pairwise distinct.
    pub open spec fn wf(self) -> bool {
        &&& self.stager.wf()
        &&& valid_pyramid_dims(self.image.width as nat, self.image.height as nat)
        &&& self.image.format == ImageFormat::R32Float
        &&& self.image.mip_levels == 1
        &&& self.image.array_layers == 1
        &&& self.binding_set.uniform_buffer == self.stager.uniform_buffer_gpu.id
        &&& self.binding_set.sampler == self.sampler
        &&& self.binding_set.output_image_view == self.view
        &&& self.binding_set.desc_set_layout == self.desc_set_layout
        &&& forall|i: int, j: int|
            0 <= i < j < OBJECT_COUNT ==> self.ids()[i] != self.ids()[j]
    }

    /// The objects that never change after construction: everything but the
    /// buffer contents, the tracked output layout and the lifecycle state.
    pub open spec fn same_objects(self, other: DepthPyramid) -> bool {
        &&& self.pipeline_layout == other.pipeline_layout
        &&& self.image == other.image
        &&& self.sampler == other.sampler
        &&& self.view == other.view
        &&& self.desc_set_layout == other.desc_set_layout
        &&& self.compute_pipeline == other.compute_pipeline
        &&& self.compute_shader_module == other.compute_shader_module
        &&& self.binding_set == other.binding_set
        &&& same_buffer_shape(self.stager.uniform_buffer, other.stager.uniform_buffer)
        &&& same_buffer_shape(self.stager.uniform_buffer_gpu, other.stager.uniform_buffer_gpu)
    }

    /// Creates all resources, binds them, and returns the constructed
    /// instance, or releases everything it had created and reports which
    /// construction step failed. Succeeds exactly when the dimensions follow
    /// the packing convention and the allocator can satisfy all nine
    /// allocations.
    pub fn new(
        allocator: &mut FakeAllocator,
        descriptor_pool: &mut DescriptorPool,
        depth_view: u64,
        image_dimensions: (u32, u32),
    ) -> (r: Result<DepthPyramid, DepthPyramidError>)
        requires
            old(allocator).wf(),
            old(descriptor_pool).allocated < u64::MAX,
        ensures
            final(allocator).wf(),
            match r {
                Result::Ok(p) => {
                    &&& valid_pyramid_dims(
                        image_dimensions.0 as nat,
                        image_dimensions.1 as nat,
                    )
                    &&& old(allocator).can_create_n(OBJECT_COUNT as nat)
                    &&& p.wf()
                    &&& p.state == PyramidState::Constructed
                    &&& p.output_layout == ImageLayout::Undefined
                    &&& p.staged == false
                    &&& p.image.width == image_dimensions.0
                    &&& p.image.height == image_dimensions.1
                    &&& p.binding_set.input_depth_view == depth_view
                    &&& p.binding_set.descriptor_set == old(descriptor_pool).allocated
                    &&& p.live_in(*final(allocator))
                    &&& forall|x: u64| p.ids().contains(x) ==> !old(allocator).is_live(x)
                    &&& final(allocator).outstanding_spec()
                        == old(allocator).outstanding_spec() + OBJECT_COUNT
                    &&& forall|x: u64|
                        old(allocator).is_live(x) ==> final(allocator).is_live(x)
                    &&& forall|x: u64|
                        final(allocator).is_live(x)
                            ==> old(allocator).is_live(x) || p.ids().contains(x)
                    &&& final(descriptor_pool).allocated
                        == old(descriptor_pool).allocated + 1
                },
                Result::Err(e) => {
                    &&& e != DepthPyramidError::InvalidDispatchDimension
                    &&& final(allocator).outstanding_spec()
                        == old(allocator).outstanding_spec()
                    &&& forall|x: u64|
                        final(allocator).is_live(x) == old(allocator).is_live(x)
                    &&& *final(descriptor_pool) == *old(descriptor_pool)
                    &&& (e == DepthPyramidError::InvalidDimensions
                        <==> !valid_pyramid_dims(
                            image_dimensions.0 as nat,
                            image_dimensions.1 as nat,
                        ))
                    &&& (e == DepthPyramidError::AllocationFailed
                        <==> valid_pyramid_dims(
                            image_dimensions.0 as nat,
                            image_dimensions.1 as nat,
                        ) && !old(allocator).can_create_n(3))
                    &&& (e == DepthPyramidError::PipelineCreationFailed
                        <==> valid_pyramid_dims(
                            image_dimensions.0 as nat,
                            image_dimensions.1 as nat,
                        ) && old(allocator).can_create_n(3)
                            && !old(allocator).can_create_n(OBJECT_COUNT as nat))
                },
            },
    {
        if !check_pyramid_dims(image_dimensions.0, image_dimensions.1) {
            return Err(DepthPyramidError::InvalidDimensions);
        }

        // Buffers and the storage image: allocation failure is fatal and
        // construction is all-or-nothing.
        let buffer_ids = match allocator.create_n(3) {
            Option::Some(v) => v,
            Option::None => {
                return Err(DepthPyramidError::AllocationFailed);
            },
        };

        // Sampler, view, descriptor-set layout, pipeline layout, shader
        // module, compute pipeline.
        let pipeline_ids = match allocator.create_n(6) {
            Option::Some(v) => v,
            Option::None => {
                allocator.free(buffer_ids[2]);
                allocator.free(buffer_ids[1]);
                allocator.free(buffer_ids[0]);
                proof {
                    assert forall|x: u64|
                        allocator.is_live(x) == old(allocator).is_live(x) by {
                        if x == buffer_ids@[0] || x == buffer_ids@[1] || x == buffer_ids@[2] {
                            assert(!allocator.is_live(x));
                            assert(!old(allocator).is_live(x));
                        } else {
                            if buffer_ids@.contains(x) {
                                let k = buffer_ids@.index_of(x);
                                assert(buffer_ids@[k] == x);
                                assert(false);
                            }
                        }
                    }
                }
                return Err(DepthPyramidError::PipelineCreationFailed);
            },
        };

        let stager = UniformStager::create(buffer_ids[0], buffer_ids[1]);
        let image = GpuImage {
            id: buffer_ids[2],
            width: image_dimensions.0,
            height: image_dimensions.1,
            format: ImageFormat::R32Float,
            mip_levels: 1,
            array_layers: 1,
        };
        let sampler = pipeline_ids[0];
        let view = pipeline_ids[1];
        let desc_set_layout = pipeline_ids[2];
        let pipeline_layout = pipeline_ids[3];
        let compute_shader_module = pipeline_ids[4];
        let compute_pipeline = pipeline_ids[5];

        let descriptor_set = descriptor_pool.allocate_set();
        let binding_set = bind(
            descriptor_set,
            desc_set_layout,
            buffer_ids[1],
            depth_view,
            sampler,
            view,
        );

        let p = DepthPyramid {
            pipeline_layout,
            stager,
            image,
            sampler,
            view,
            desc_set_layout,
            compute_pipeline,
            compute_shader_module,
            binding_set,
            output_layout: ImageLayout::Undefined,
            staged: false,
            state: PyramidState::Constructed,
        };
        proof {
            assert(p.ids()[0] == buffer_ids@[0]);
            assert(p.ids()[1] == buffer_ids@[1]);
            assert(p.ids()[2] == buffer_ids@[2]);
            assert(p.ids()[3] == pipeline_ids@[0]);
            assert(p.ids()[4] == pipeline_ids@[1]);
            assert(p.ids()[5] == pipeline_ids@[2]);
            assert(p.ids()[6] == pipeline_ids@[3]);
            assert(p.ids()[7] == pipeline_ids@[4]);
            assert(p.ids()[8] == pipeline_ids@[5]);
            assert forall|x: u64| p.ids().contains(x) implies
                buffer_ids@.contains(x) || pipeline_ids@.contains(x) by {
                let k = p.ids().index_of(x);
                if k < 3 {
                    assert(buffer_ids@[k] == x);
                } else {
                    assert(pipeline_ids@[k - 3] == x);
                }
            }
            assert forall|x: u64|
                allocator.is_live(x)
                    && !old(allocator).is_live(x) implies p.ids().contains(x) by {
                if buffer_ids@.contains(x) {
                    let k = buffer_ids@.index_of(x);
                    assert(p.ids()[k] == x);
                } else {
                    assert(pipeline_ids@.contains(x));
                    let k = pipeline_ids@.index_of(x);
                    assert(p.ids()[k + 3] == x);
                }
            }
        }
        Ok(p)
    }

    /// The read-only view of the mip-0 output image, consumable by later
    /// culling or downsample stages. The only externally observable output.
    pub fn output_view(&self) -> (v: u64)
        requires
            self.state == PyramidState::Constructed,
        ensures
            v == self.view,
    {
        self.view
    }

    /// Records the one-time setup barrier: the output storage image leaves
    /// its undefined initial layout for general shader read/write access,
    /// before any dispatch ever references it.
    pub fn gpu_setup(&mut self, rec: &mut CommandRecorder)
        requires
            old(self).state == PyramidState::Constructed,
        ensures
            final(self).state == PyramidState::Constructed,
            final(self).output_layout == ImageLayout::General,
            final(self).staged == old(self).staged,
            final(self).same_objects(*old(self)),
            final(self).wf() == old(self).wf(),
            same_buffer(final(self).stager.uniform_buffer, old(self).stager.uniform_buffer),
            same_buffer(
                final(self).stager.uniform_buffer_gpu,
                old(self).stager.uniform_buffer_gpu,
            ),
            final(rec).commands@ == old(rec).commands@.push(
                Command::ImageBarrier(setup_output_barrier_spec(old(self).image.id)),
            ),
    {
        let barrier = crate::barrier::ImageBarrier {
            image: self.image.id,
            aspect: crate::barrier::ImageAspect::Color,
            src_stage: crate::barrier::PipelineStage::TopOfPipe,
            dst_stage: crate::barrier::PipelineStage::ComputeShader,
            src_access: crate::barrier::Access::NotAccessed,
            dst_access: crate::barrier::Access::ShaderWrite,
            old_layout: ImageLayout::Undefined,
            new_layout: ImageLayout::General,
        };
        rec.record(Command::ImageBarrier(barrier));
        self.output_layout = ImageLayout::General;
        proof {
            assert(self.ids() =~= old(self).ids());
        }
    }

    /// Copies `uniforms` into the host-mapped staging buffer at offset 0 and
    /// marks the frame staged. The staged value reaches the device buffer
    /// through the copy that `gpu_draw` records; each recorded frame
    /// requires a fresh staging, so the dispatch never reads a stale value.
    pub fn update(&mut self, uniforms: &DepthPyramidMip0Uniforms)
        requires
            old(self).wf(),
            old(self).state == PyramidState::Constructed,
        ensures
            final(self).wf(),
            final(self).state == PyramidState::Constructed,
            final(self).output_layout == old(self).output_layout,
            final(self).staged == true,
            final(self).same_objects(*old(self)),
            final(self).stager.uniform_buffer.data@ == mip0_uniform_bytes(*uniforms),
            same_buffer(
                final(self).stager.uniform_buffer_gpu,
                old(self).stager.uniform_buffer_gpu,
            ),
    {
        self.stager.stage(uniforms);
        self.staged = true;
        proof {
            assert(self.ids() =~= old(self).ids());
        }
    }

    /// The exact command sequence one frame records: the barrier/copy/
    /// barrier around the uniform upload, the depth-image handoff to the
    /// compute stage, pipeline and binding-set binds, the dispatch, and the
    /// barrier returning the depth image to the render pass.
    pub open spec fn draw_commands_spec(self, depth_image: u64, dim: u32) -> Seq<Command> {
        seq![
            Command::BufferBarrier(host_to_transfer_barrier_spec(
                self.stager.uniform_buffer_gpu.id,
                MIP0_UNIFORM_BYTES,
            )),
            self.stager.copy_command_spec(),
            Command::BufferBarrier(transfer_to_shader_barrier_spec(
                self.stager.uniform_buffer_gpu.id,
                MIP0_UNIFORM_BYTES,
            )),
            Command::ImageBarrier(depth_to_compute_barrier_spec(depth_image)),
            Command::BindComputePipeline { pipeline: self.compute_pipeline },
            Command::BindDescriptorSets {
                pipeline_layout: self.pipeline_layout,
                descriptor_set: self.binding_set.descriptor_set,
            },
            Command::Dispatch { x: dim / GROUP_SIZE, y: dim / GROUP_SIZE, z: 1 },
            Command::ImageBarrier(depth_to_render_barrier_spec(depth_image)),
        ]
    }

    /// Records one frame: uniform upload, depth-image handoff, dispatch,
    /// and handback, in exactly that order, and consumes the staged frame.
    /// Fails fast, recording nothing, when the target dimension is
    /// degenerate — smaller than the group size, so that truncating division
    /// would dispatch an empty grid. Any larger dimension is dispatched with
    /// truncating division by the group size (a non-multiple of 8 leaves a
    /// strip of texels unwritten — deliberate, see `dispatch_grid`).
    pub fn gpu_draw(
        &mut self,
        rec: &mut CommandRecorder,
        depth_image: u64,
        pyramid_mip0_dimension: u32,
    ) -> (r: Result<(), DepthPyramidError>)
        requires
            old(self).wf(),
            old(self).state == PyramidState::Constructed,
            old(self).output_layout == ImageLayout::General,
            old(self).staged,
        ensures
            final(self).wf(),
            final(self).state == old(self).state,
            final(self).output_layout == old(self).output_layout,
            final(self).same_objects(*old(self)),
            same_buffer(final(self).stager.uniform_buffer, old(self).stager.uniform_buffer),
            same_buffer(
                final(self).stager.uniform_buffer_gpu,
                old(self).stager.uniform_buffer_gpu,
            ),
            match r {
                Result::Ok(()) => {
                    &&& pyramid_mip0_dimension >= GROUP_SIZE
                    &&& final(self).staged == false
                    &&& final(rec).commands@ == old(rec).commands@
                        + old(self).draw_commands_spec(depth_image, pyramid_mip0_dimension)
                },
                Result::Err(e) => {
                    &&& e == DepthPyramidError::InvalidDispatchDimension
                    &&& pyramid_mip0_dimension < GROUP_SIZE
                    &&& final(self).staged == old(self).staged
                    &&& final(rec).commands@ == old(rec).commands@
                },
            },
    {
        if pyramid_mip0_dimension < GROUP_SIZE {
            return Err(DepthPyramidError::InvalidDispatchDimension);
        }

        // Update the device-side uniform buffer.
        rec.record(Command::BufferBarrier(crate::barrier::BufferBarrier {
            buffer: self.stager.uniform_buffer_gpu.id,
            src_stage: crate::barrier::PipelineStage::BottomOfPipe,
            dst_stage: crate::barrier::PipelineStage::Transfer,
            src_access: crate::barrier::Access::NotAccessed,
            dst_access: crate::barrier::Access::TransferWrite,
            offset: 0,
            size: MIP0_UNIFORM_BYTES,
        }));
        self.stager.flush(rec);
        rec.record(Command::BufferBarrier(crate::barrier::BufferBarrier {
            buffer: self.stager.uniform_buffer_gpu.id,
            src_stage: crate::barrier::PipelineStage::Transfer,
            dst_stage: crate::barrier::PipelineStage::VertexInput,
            src_access: crate::barrier::Access::TransferWrite,
            dst_access: crate::barrier::Access::ShaderRead,
            offset: 0,
            size: MIP0_UNIFORM_BYTES,
        }));

        // Borrow the depth image from the render pass for the compute stage.
        rec.record(Command::ImageBarrier(crate::barrier::ImageBarrier {
            image: depth_image,
            aspect: crate::barrier::ImageAspect::Depth,
            src_stage: crate::barrier::PipelineStage::LateFragmentTests,
            dst_stage: crate::barrier::PipelineStage::ComputeShader,
            src_access: crate::barrier::Access::DepthAttachmentReadWrite,
            dst_access: crate::barrier::Access::ShaderRead,
            old_layout: ImageLayout::DepthStencilAttachmentOptimal,
            new_layout: ImageLayout::ShaderReadOnlyOptimal,
        }));

        // First-pass downsample compute dispatch.
        rec.record(Command::BindComputePipeline { pipeline: self.compute_pipeline });
        rec.record(Command::BindDescriptorSets {
            pipeline_layout: self.pipeline_layout,
            descriptor_set: self.binding_set.descriptor_set,
        });
        let (gx, gy, gz) = crate::dims::dispatch_grid(pyramid_mip0_dimension);
        rec.record(Command::Dispatch { x: gx, y: gy, z: gz });

        // Return the depth image to the render pass.
        rec.record(Command::ImageBarrier(crate::barrier::ImageBarrier {
            image: depth_image,
            aspect: crate::barrier::ImageAspect::Depth,
            src_stage: crate::barrier::PipelineStage::ComputeShader,
            dst_stage: crate::barrier::PipelineStage::LateFragmentTests,
            src_access: crate::barrier::Access::ShaderRead,
            dst_access: crate::barrier::Access::DepthAttachmentReadWrite,
            old_layout: ImageLayout::ShaderReadOnlyOptimal,
            new_layout: ImageLayout::DepthStencilAttachmentOptimal,
        }));

        self.staged = false;
        proof {
            assert(self.ids() =~= old(self).ids());
            assert(rec.commands@ =~= old(rec).commands@
                + old(self).draw_commands_spec(depth_image, pyramid_mip0_dimension));
        }
        Ok(())
    }

    /// Releases all nine objects, exactly once each, and makes the terminal
    /// state. No operation is valid on a destroyed instance.
    pub fn destroy(&mut self, allocator: &mut FakeAllocator)
        requires
            old(self).wf(),
            old(self).state == PyramidState::Constructed,
            old(allocator).wf(),
            old(self).live_in(*old(allocator)),
        ensures
            final(self).state == PyramidState::Destroyed,
            final(allocator).wf(),
            final(allocator).outstanding_spec()
                == old(allocator).outstanding_spec() - OBJECT_COUNT,
            forall|x: u64| old(self).ids().contains(x) ==> !final(allocator).is_live(x),
            forall|x: u64|
                !old(self).ids().contains(x)
                    ==> final(allocator).is_live(x) == old(allocator).is_live(x),
    {
        proof {
            assert(old(self).ids()[0] == self.stager.uniform_buffer.id);
            assert(old(self).ids()[1] == self.stager.uniform_buffer_gpu.id);
            assert(old(self).ids()[2] == self.image.id);
            assert(old(self).ids()[3] == self.sampler);
            assert(old(self).ids()[4] == self.view);
            assert(old(self).ids()[5] == self.desc_set_layout);
            assert(old(self).ids()[6] == self.pipeline_layout);
            assert(old(self).ids()[7] == self.compute_shader_module);
            assert(old(self).ids()[8] == self.compute_pipeline);
        }
        allocator.free(self.view);
        allocator.free(self.image.id);
        allocator.free(self.stager.uniform_buffer.id);
        allocator.free(self.stager.uniform_buffer_gpu.id);
        allocator.free(self.sampler);
        allocator.free(self.compute_pipeline);
        allocator.free(self.pipeline_layout);
        allocator.free(self.compute_shader_module);
        allocator.free(self.desc_set_layout);
        self.state = PyramidState::Destroyed;
        proof {
            assert forall|x: u64| old(self).ids().contains(x) implies
                !allocator.is_live(x) by {
                let k = old(self).ids().index_of(x);
                assert(old(self).ids()[k] == x);
            }
        }
    }
}

/// Depth-image layout palindrome for one draw call: starting from the
/// render-pass layout, the recorded frame hands the depth image to the
/// compute stage and returns it, so the tracked layout after the frame is
/// exactly the layout before it, and every transition named the layout the
/// image was actually in.
pub proof fn lemma_draw_layout_palindrome(
    p: DepthPyramid,
    depth_image: u64,
    dim: u32,
    t: LayoutTracker,
)
    requires
        t.image == depth_image,
        t.layout == ImageLayout::DepthStencilAttachmentOptimal,
    ensures
        layout_after(t, p.draw_commands_spec(depth_image, dim)) == t,
        layouts_ok(t, p.draw_commands_spec(depth_image, dim)),
{
    let cs = p.draw_commands_spec(depth_image, dim);
    let s1 = cs.drop_first();
    let s2 = s1.drop_first();
    let s3 = s2.drop_first();
    let s4 = s3.drop_first();
    let s5 = s4.drop_first();
    let s6 = s5.drop_first();
    let s7 = s6.drop_first();
    let s8 = s7.drop_first();
    assert(s8.len() == 0);
    let borrowed = LayoutTracker {
        image: depth_image,
        layout: ImageLayout::ShaderReadOnlyOptimal,
    };
    // The buffer barriers, the copy, the binds and the dispatch leave the
    // tracker alone; the two depth barriers take it out and back.
    assert(apply_command_layout(t, cs[0]) == t);
    assert(apply_command_layout(t, cs[1]) == t);
    assert(apply_command_layout(t, cs[2]) == t);
    assert(apply_command_layout(t, cs[3]) == borrowed);
    assert(apply_command_layout(borrowed, cs[4]) == borrowed);
    assert(apply_command_layout(borrowed, cs[5]) == borrowed);
    assert(apply_command_layout(borrowed, cs[6]) == borrowed);
    assert(apply_command_layout(borrowed, cs[7]) == t);
    assert(layout_after(t, cs) == layout_after(t, s1));
    assert(layout_after(t, s1) == layout_after(t, s2));
    assert(layout_after(t, s2) == layout_after(t, s3));
    assert(layout_after(t, s3) == layout_after(borrowed, s4));
    assert(layout_after(borrowed, s4) == layout_after(borrowed, s5));
    assert(layout_after(borrowed, s5) == layout_after(borrowed, s6));
    assert(layout_after(borrowed, s6) == layout_after(borrowed, s7));
    assert(layout_after(borrowed, s7) == layout_after(t, s8));
    assert(layout_after(t, s8) == t);
    assert(command_layout_ok(t, cs[3]));
    assert(command_layout_ok(borrowed, cs[7]));
    assert(layouts_ok(t, s8));
    assert(layouts_ok(borrowed, s7));
    assert(layouts_ok(borrowed, s6));
    assert(layouts_ok(borrowed, s5));
    assert(layouts_ok(borrowed, s4));
    assert(layouts_ok(t, s3));
    assert(layouts_ok(t, s2));
    assert(layouts_ok(t, s1));
    assert(layouts_ok(t, cs));
}

/// The commands that a sequence of draw calls records, one frame per entry
/// of `dims`, in order.
pub open spec fn frames_commands(
    p: DepthPyramid,
    depth_image: u64,
    dims: Seq<u32>,
) -> Seq<Command>
    decreases dims.len(),
{
    if dims.len() == 0 {
        Seq::empty()
    } else {
        p.draw_commands_spec(depth_image, dims[0])
            + frames_commands(p, depth_image, dims.drop_first())
    }
}

/// Depth-image layout palindrome over any sequence of draw calls: starting
/// from the render-pass layout, the tracked layout is back to it after the
/// whole recording, and every transition named the layout the image was in.
/// Instantiated at any prefix of `dims`, this says the layout immediately
/// before and immediately after each call is the render-pass state.
pub proof fn lemma_frames_layout_palindrome(
    p: DepthPyramid,
    depth_image: u64,
    dims: Seq<u32>,
    t: LayoutTracker,
)
    requires
        t.image == depth_image,
        t.layout == ImageLayout::DepthStencilAttachmentOptimal,
    ensures
        layout_after(t, frames_commands(p, depth_image, dims)) == t,
        layouts_ok(t, frames_commands(p, depth_image, dims)),
    decreases dims.len(),
{
    if dims.len() == 0 {
        assert(layout_after(t, Seq::<Command>::empty()) == t);
        assert(layouts_ok(t, Seq::<Command>::empty()));
    } else {
        let head = p.draw_commands_spec(depth_image, dims[0]);
        let tail = frames_commands(p, depth_image, dims.drop_first());
        lemma_draw_layout_palindrome(p, depth_image, dims[0], t);
        lemma_layout_after_concat(t, head, tail);
        lemma_layouts_ok_concat(t, head, tail);
        lemma_frames_layout_palindrome(p, depth_image, dims.drop_first(), t);
    }
}

/// Teardown leaves nothing outstanding: a construction added exactly the
/// pyramid's nine objects (all fresh), and a teardown removed exactly them,
/// so the allocator's outstanding count and live set return to what they
/// were before construction — zero when it started empty. `a0` is the
/// allocator before `new`, `a1` after it, `a2` after `destroy`.
pub proof fn lemma_construct_destroy_no_leak(
    a0: FakeAllocator,
    a1: FakeAllocator,
    a2: FakeAllocator,
    p: DepthPyramid,
)
    requires
        a1.outstanding_spec() == a0.outstanding_spec() + OBJECT_COUNT,
        forall|x: u64| p.ids().contains(x) ==> !a0.is_live(x),
        forall|x: u64| a0.is_live(x) ==> a1.is_live(x),
        forall|x: u64| a1.is_live(x) ==> a0.is_live(x) || p.ids().contains(x),
        a2.outstanding_spec() == a1.outstanding_spec() - OBJECT_COUNT,
        forall|x: u64| p.ids().contains(x) ==> !a2.is_live(x),
        forall|x: u64|
            !p.ids().contains(x) ==> a2.is_live(x) == a1.is_live(x),
    ensures
        a2.outstanding_spec() == a0.outstanding_spec(),
        forall|x: u64| a2.is_live(x) == a0.is_live(x),
{
    assert forall|x: u64| a2.is_live(x) == a0.is_live(x) by {
        if p.ids().contains(x) {
            assert(!a2.is_live(x));
            assert(!a0.is_live(x));
        } else {
            assert(a2.is_live(x) == a1.is_live(x));
        }
    }
}

} // verus!
