use depth_pyramid::allocator::FakeAllocator;
use depth_pyramid::barrier::ImageLayout;
use depth_pyramid::barrier::LayoutTracker;
use depth_pyramid::binder::DescriptorPool;
use depth_pyramid::commands::Command;
use depth_pyramid::commands::CommandRecorder;
use depth_pyramid::commands::replay_layouts;
use depth_pyramid::dims::check_pow2;
use depth_pyramid::dims::check_pyramid_dims;
use depth_pyramid::dims::dispatch_grid;
use depth_pyramid::dims::pyramid_dimensions_for_source;
use depth_pyramid::pyramid::DepthPyramid;
use depth_pyramid::pyramid::DepthPyramidError;
use depth_pyramid::uniforms::DepthPyramidMip0Uniforms;

fn build(
    allocator: &mut FakeAllocator,
    pool: &mut DescriptorPool,
    dims: (u32, u32),
) -> DepthPyramid {
    DepthPyramid::new(allocator, pool, 4096, dims).expect("construction should succeed")
}

#[test]
fn constructed_extent_and_buffer_sizes() {
    // Valid (width, height) pairs: height a power of two, width 1.5x height.
    for (w, h) in [(3u32, 2u32), (48, 32), (1536, 1024), (6144, 4096)] {
        let mut allocator = FakeAllocator::new(64);
        let mut pool = DescriptorPool::new();
        let p = build(&mut allocator, &mut pool, (w, h));
        assert_eq!(p.image.width, w);
        assert_eq!(p.image.height, h);
        let staging = p.stager.uniform_buffer.size;
        let device = p.stager.uniform_buffer_gpu.size;
        assert_eq!(staging, device);
        assert!(staging > 0);
    }
}

#[test]
fn invalid_dimensions_are_rejected() {
    for (w, h) in [(0u32, 0u32), (1536, 1000), (1535, 1024), (1, 1), (2, 3)] {
        let mut allocator = FakeAllocator::new(64);
        let mut pool = DescriptorPool::new();
        let r = DepthPyramid::new(&mut allocator, &mut pool, 4096, (w, h));
        assert!(matches!(r, Err(DepthPyramidError::InvalidDimensions)));
        assert_eq!(allocator.outstanding(), 0);
    }
}

#[test]
fn allocation_failure_is_all_or_nothing() {
    // No budget at all: the buffer/image allocations fail.
    let mut allocator = FakeAllocator::new(0);
    let mut pool = DescriptorPool::new();
    let r = DepthPyramid::new(&mut allocator, &mut pool, 4096, (1536, 1024));
    assert!(matches!(r, Err(DepthPyramidError::AllocationFailed)));
    assert_eq!(allocator.outstanding(), 0);

    // Budget for the buffers and image but not the pipeline objects: the
    // partial construction is rolled back completely.
    let mut allocator = FakeAllocator::new(5);
    let mut pool = DescriptorPool::new();
    let r = DepthPyramid::new(&mut allocator, &mut pool, 4096, (1536, 1024));
    assert!(matches!(r, Err(DepthPyramidError::PipelineCreationFailed)));
    assert_eq!(allocator.outstanding(), 0);
}

#[test]
fn staged_value_round_trips_to_device_buffer() {
    let mut allocator = FakeAllocator::new(64);
    let mut pool = DescriptorPool::new();
    let mut p = build(&mut allocator, &mut pool, (1536, 1024));
    let u = DepthPyramidMip0Uniforms { src_dimensions: (1920, 1080), dst_dimensions: 1024 };
    p.update(&u);
    // The device executes the copy the frame records.
    p.stager.execute_copy();
    // A simulated dispatch reads the device buffer: byte-identical value.
    assert_eq!(
        p.stager.uniform_buffer_gpu.data,
        p.stager.uniform_buffer.data,
    );
    let observed = p.stager.read_device_uniforms();
    assert_eq!(observed, u);
}

#[test]
fn encoded_uniform_bytes_are_little_endian() {
    let mut allocator = FakeAllocator::new(64);
    let mut pool = DescriptorPool::new();
    let mut p = build(&mut allocator, &mut pool, (1536, 1024));
    let u = DepthPyramidMip0Uniforms { src_dimensions: (1920, 1080), dst_dimensions: 1024 };
    p.update(&u);
    assert_eq!(
        p.stager.uniform_buffer.data,
        vec![128, 7, 0, 0, 56, 4, 0, 0, 0, 4, 0, 0],
    );
}

#[test]
fn dispatch_grid_for_multiple_of_group_size() {
    assert_eq!(dispatch_grid(1024), (128, 128, 1));
}

#[test]
fn dispatch_grid_truncates_non_multiples() {
    // Truncating division covers only 776 of 783 texels per axis; this is
    // the documented, deliberate behaviour.
    let (x, y, z) = dispatch_grid(783);
    assert_eq!((x, y, z), (97, 97, 1));
    assert_eq!(x * 8, 776);
}

#[test]
fn layout_palindrome_across_draw_calls() {
    let mut allocator = FakeAllocator::new(64);
    let mut pool = DescriptorPool::new();
    let mut p = build(&mut allocator, &mut pool, (1536, 1024));
    let depth_image: u64 = 7777;
    let mut rec = CommandRecorder::new();
    p.gpu_setup(&mut rec);
    let mut tracker = LayoutTracker::start(
        depth_image,
        ImageLayout::DepthStencilAttachmentOptimal,
    );
    for dim in [1024u32, 512, 783, 8, 1024] {
        // Each frame stages its uniforms before it dispatches.
        p.update(&DepthPyramidMip0Uniforms {
            src_dimensions: (1920, 1080),
            dst_dimensions: dim,
        });
        let mut frame = CommandRecorder::new();
        p.gpu_draw(&mut frame, depth_image, dim).expect("draw should record");
        // Immediately before the call the tracked layout is the
        // render-pass state; immediately after, it is again.
        assert_eq!(tracker.layout, ImageLayout::DepthStencilAttachmentOptimal);
        let ok = replay_layouts(&mut tracker, &frame);
        assert!(ok);
        assert_eq!(tracker.layout, ImageLayout::DepthStencilAttachmentOptimal);
    }
}

#[test]
fn replay_rejects_mismatched_transition() {
    let mut allocator = FakeAllocator::new(64);
    let mut pool = DescriptorPool::new();
    let mut p = build(&mut allocator, &mut pool, (1536, 1024));
    let depth_image: u64 = 7777;
    let mut setup = CommandRecorder::new();
    p.gpu_setup(&mut setup);
    p.update(&DepthPyramidMip0Uniforms { src_dimensions: (1920, 1080), dst_dimensions: 1024 });
    let mut frame = CommandRecorder::new();
    p.gpu_draw(&mut frame, depth_image, 1024).expect("draw should record");
    // Start the tracker in the wrong layout: the first depth barrier names
    // a layout the image is not in.
    let mut tracker = LayoutTracker::start(depth_image, ImageLayout::General);
    let ok = replay_layouts(&mut tracker, &frame);
    assert!(!ok);
}

#[test]
fn teardown_reports_zero_outstanding_each_time() {
    let mut allocator = FakeAllocator::new(1024);
    let mut pool = DescriptorPool::new();
    for _ in 0..5 {
        let mut p = build(&mut allocator, &mut pool, (1536, 1024));
        assert_eq!(allocator.outstanding(), 9);
        p.destroy(&mut allocator);
        assert_eq!(allocator.outstanding(), 0);
    }
}

#[test]
fn degenerate_dispatch_dimension_fails_fast() {
    let mut allocator = FakeAllocator::new(64);
    let mut pool = DescriptorPool::new();
    let mut p = build(&mut allocator, &mut pool, (1536, 1024));
    let mut rec = CommandRecorder::new();
    p.gpu_setup(&mut rec);
    p.update(&DepthPyramidMip0Uniforms { src_dimensions: (1920, 1080), dst_dimensions: 8 });
    // Zero, and anything below the group size, would dispatch an empty
    // grid: rejected with an error, nothing recorded.
    for dim in [0u32, 1, 7] {
        let before = rec.len();
        let r = p.gpu_draw(&mut rec, 7777, dim);
        assert!(matches!(r, Err(DepthPyramidError::InvalidDispatchDimension)));
        assert_eq!(rec.len(), before);
    }
    // The smallest non-degenerate dimension dispatches a single group.
    let mut frame = CommandRecorder::new();
    p.gpu_draw(&mut frame, 7777, 8).expect("draw should record");
    assert!(frame
        .commands
        .iter()
        .any(|c| matches!(c, Command::Dispatch { x: 1, y: 1, z: 1 })));
}

#[test]
fn pyramid_dimensions_derived_from_source() {
    assert_eq!(pyramid_dimensions_for_source((1920, 1080)), (1536, 1024));
    assert_eq!(pyramid_dimensions_for_source((640, 480)), (384, 256));
    assert_eq!(pyramid_dimensions_for_source((2, 2)), (3, 2));
    assert_eq!(pyramid_dimensions_for_source((1024, 1024)), (1536, 1024));
}

#[test]
fn power_of_two_and_dimension_checks() {
    assert!(check_pow2(1));
    assert!(check_pow2(2));
    assert!(check_pow2(1024));
    assert!(!check_pow2(0));
    assert!(!check_pow2(3));
    assert!(!check_pow2(1000));
    assert!(check_pyramid_dims(1536, 1024));
    assert!(check_pyramid_dims(3, 2));
    assert!(!check_pyramid_dims(1536, 1023));
    assert!(!check_pyramid_dims(1537, 1024));
    assert!(!check_pyramid_dims(1, 1));
}

#[test]
fn end_to_end_frame_recording() {
    // Construct for a 1920x1080 source depth image, stage the frame's
    // uniforms, and record one draw targeting mip-0 dimension 1024.
    let source = (1920u32, 1080u32);
    let dims = pyramid_dimensions_for_source(source);
    assert_eq!(dims, (1536, 1024));

    let mut allocator = FakeAllocator::new(64);
    let mut pool = DescriptorPool::new();
    let depth_view: u64 = 4096;
    let mut p = DepthPyramid::new(&mut allocator, &mut pool, depth_view, dims)
        .expect("construction should succeed");

    let mut setup = CommandRecorder::new();
    p.gpu_setup(&mut setup);
    assert_eq!(setup.len(), 1);

    p.update(&DepthPyramidMip0Uniforms { src_dimensions: source, dst_dimensions: 1024 });
    assert!(p.staged);

    let mut rec = CommandRecorder::new();
    p.gpu_draw(&mut rec, 7777, 1024).expect("draw should record");
    // The frame consumed the staged uniforms; the next frame must stage anew.
    assert!(!p.staged);

    // Exactly one uniform copy, one pair of depth-layout transitions, and
    // one dispatch with grid (128, 128, 1), in that order.
    let mut copies: Vec<usize> = Vec::new();
    let mut depth_barriers: Vec<usize> = Vec::new();
    let mut dispatches: Vec<usize> = Vec::new();
    for (i, c) in rec.commands.iter().enumerate() {
        match c {
            Command::CopyBuffer { .. } => copies.push(i),
            Command::ImageBarrier(b) if b.image == 7777 => depth_barriers.push(i),
            Command::Dispatch { .. } => dispatches.push(i),
            _ => {},
        }
    }
    assert_eq!(copies.len(), 1);
    assert_eq!(depth_barriers.len(), 2);
    assert_eq!(dispatches.len(), 1);
    assert!(copies[0] < depth_barriers[0]);
    assert!(depth_barriers[0] < dispatches[0]);
    assert!(dispatches[0] < depth_barriers[1]);
    match rec.commands[dispatches[0]] {
        Command::Dispatch { x, y, z } => assert_eq!((x, y, z), (128, 128, 1)),
        _ => unreachable!(),
    }
    // The barrier after the copy makes the transfer write visible to the
    // shader's uniform read.
    match rec.commands[copies[0] + 1] {
        Command::BufferBarrier(b) => {
            assert_eq!(b.src_access, depth_pyramid::barrier::Access::TransferWrite);
            assert_eq!(b.dst_access, depth_pyramid::barrier::Access::ShaderRead);
        }
        _ => unreachable!(),
    }
}
