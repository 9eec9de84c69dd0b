//! Uniform staging: the host-mapped/device-local buffer pair and the
//! per-frame upload.
//!
//! `stage` writes the encoded payload into the host-mapped staging buffer at
//! offset 0; `flush` records the device-side copy into the device-local
//! buffer. The staged value must be device-copied strictly before any
//! dispatch of the same frame reads the device buffer; that ordering is
//! enforced by the barrier sequence around the copy, not by this component.

use vstd::prelude::*;
use crate::allocator::BufferUsage;
use crate::allocator::GpuBuffer;
use crate::allocator::MemoryKind;
use crate::commands::Command;
use crate::commands::CommandRecorder;
use crate::uniforms::DepthPyramidMip0Uniforms;
use crate::uniforms::MIP0_UNIFORM_BYTES;
use crate::uniforms::decode_mip0_spec;
use crate::uniforms::decode_mip0_uniforms;
use crate::uniforms::encode_mip0_uniforms;
use crate::uniforms::lemma_mip0_round_trip;
use crate::uniforms::mip0_uniform_bytes;

verus! {

/// Two buffers of equal size forming a producer/consumer pair: a host-mapped
/// staging buffer the CPU writes, and a device-local buffer the dispatch
/// reads, filled by a recorded device-side copy.
#[derive(Debug)]
pub struct UniformStager {
    /// Host-mapped staging buffer (CPU-writable).
    pub uniform_buffer: GpuBuffer,
    /// Device-local buffer the compute shader reads as its uniforms.
    pub uniform_buffer_gpu: GpuBuffer,
}

/// The parts of a buffer that staging never changes: handle, size,
/// placement and usage.
pub open spec fn same_buffer_shape(a: GpuBuffer, b: GpuBuffer) -> bool {
    &&& a.id == b.id
    &&& a.size == b.size
    &&& a.kind == b.kind
    &&& a.usage == b.usage
}

/// Shape and contents both unchanged.
pub open spec fn same_buffer(a: GpuBuffer, b: GpuBuffer) -> bool {
    &&& same_buffer_shape(a, b)
    &&& a.data@ == b.data@
}

/// `n` zero bytes.
fn zero_bytes(n: usize) -> (v: Vec<u8>)
    ensures
        v@.len() == n,
{
    let mut v: Vec<u8> = Vec::new();
    let mut i: usize = 0;
    while i < n
        invariant
            0 <= i <= n,
            v@.len() == i,
        decreases n - i,
    {
        v.push(0u8);
        i = i + 1;
    }
    v
}

/// A fresh copy of the bytes of `src`.
fn copy_bytes(src: &Vec<u8>) -> (dst: Vec<u8>)
    ensures
        dst@ == src@,
{
    let n: usize = src.len();
    let mut dst: Vec<u8> = Vec::new();
    let mut i: usize = 0;
    while i < n
        invariant
            0 <= i <= n,
            n == src@.len(),
            dst@ == src@.take(i as int),
        decreases n - i,
    {
        dst.push(src[i]);
        proof {
            assert(dst@ =~= src@.take(i + 1));
        }
        i = i + 1;
    }
    proof {
        assert(src@.take(n as int) =~= src@);
    }
    dst
}

impl UniformStager {
    /// Invariant: both buffers hold exactly the uniform payload size — the
    /// two sizes are always equal and non-zero — the staging buffer is
    /// host-mapped transfer source, the device buffer device-local transfer
    /// destination, and the handles differ.
    pub open spec fn wf(self) -> bool {
        &&& self.uniform_buffer.wf()
        &&& self.uniform_buffer_gpu.wf()
        &&& self.uniform_buffer.size == MIP0_UNIFORM_BYTES
        &&& self.uniform_buffer_gpu.size == self.uniform_buffer.size
        &&& self.uniform_buffer.kind == MemoryKind::HostMapped
        &&& self.uniform_buffer_gpu.kind == MemoryKind::DeviceLocal
        &&& self.uniform_buffer.usage == BufferUsage::TransferSrc
        &&& self.uniform_buffer_gpu.usage == BufferUsage::TransferDstUniform
        &&& self.uniform_buffer.id != self.uniform_buffer_gpu.id
    }

    /// The device-side copy this stager records: staging to device, whole
    /// payload, offset 0 on both sides.
    pub open spec fn copy_command_spec(self) -> Command {
        Command::CopyBuffer {
            src: self.uniform_buffer.id,
            dst: self.uniform_buffer_gpu.id,
            src_offset: 0,
            dst_offset: 0,
            size: self.uniform_buffer.size,
        }
    }

    /// Builds the pair over two freshly allocated buffer handles, both
    /// zero-filled at the payload size.
    pub fn create(staging_id: u64, device_id: u64) -> (s: UniformStager)
        requires
            staging_id != device_id,
        ensures
            s.wf(),
            s.uniform_buffer.id == staging_id,
            s.uniform_buffer_gpu.id == device_id,
    {
        let uniform_buffer = GpuBuffer {
            id: staging_id,
            size: MIP0_UNIFORM_BYTES,
            kind: MemoryKind::HostMapped,
            usage: BufferUsage::TransferSrc,
            data: zero_bytes(MIP0_UNIFORM_BYTES as usize),
        };
        let uniform_buffer_gpu = GpuBuffer {
            id: device_id,
            size: MIP0_UNIFORM_BYTES,
            kind: MemoryKind::DeviceLocal,
            usage: BufferUsage::TransferDstUniform,
            data: zero_bytes(MIP0_UNIFORM_BYTES as usize),
        };
        UniformStager { uniform_buffer, uniform_buffer_gpu }
    }

    /// Copies `values` into the host-mapped staging buffer at offset 0.
    pub fn stage(&mut self, values: &DepthPyramidMip0Uniforms)
        requires
            old(self).wf(),
        ensures
            final(self).wf(),
            final(self).uniform_buffer.data@ == mip0_uniform_bytes(*values),
            same_buffer_shape(final(self).uniform_buffer, old(self).uniform_buffer),
            same_buffer(final(self).uniform_buffer_gpu, old(self).uniform_buffer_gpu),
    {
        self.uniform_buffer.data = encode_mip0_uniforms(values);
    }

    /// Records the device-side copy from the staging buffer to the device
    /// buffer.
    pub fn flush(&self, rec: &mut CommandRecorder)
        ensures
            final(rec).commands@ == old(rec).commands@.push(self.copy_command_spec()),
    {
        rec.record(Command::CopyBuffer {
            src: self.uniform_buffer.id,
            dst: self.uniform_buffer_gpu.id,
            src_offset: 0,
            dst_offset: 0,
            size: self.uniform_buffer.size,
        });
    }

    /// Models the device executing the recorded copy: the device buffer
    /// takes the staging buffer's bytes.
    pub fn execute_copy(&mut self)
        requires
            old(self).wf(),
        ensures
            final(self).wf(),
            final(self).uniform_buffer_gpu.data@ == old(self).uniform_buffer.data@,
            same_buffer(final(self).uniform_buffer, old(self).uniform_buffer),
            same_buffer_shape(final(self).uniform_buffer_gpu, old(self).uniform_buffer_gpu),
    {
        self.uniform_buffer_gpu.data = copy_bytes(&self.uniform_buffer.data);
    }

    /// A simulated dispatch reading the device buffer: decodes the payload
    /// the copy delivered.
    pub fn read_device_uniforms(&self) -> (u: DepthPyramidMip0Uniforms)
        requires
            self.wf(),
        ensures
            u == decode_mip0_spec(self.uniform_buffer_gpu.data@),
    {
        decode_mip0_uniforms(&self.uniform_buffer_gpu.data)
    }

    /// Round trip: a value staged into the staging buffer and flushed by the
    /// device copy is observed, byte-identical, by a dispatch reading the
    /// device buffer. `staged` is the stager after `stage(u)`, `copied` the
    /// stager after the device executed the copy.
    pub proof fn lemma_stage_copy_read_round_trip(
        staged: UniformStager,
        copied: UniformStager,
        u: DepthPyramidMip0Uniforms,
    )
        requires
            staged.uniform_buffer.data@ == mip0_uniform_bytes(u),
            copied.uniform_buffer_gpu.data@ == staged.uniform_buffer.data@,
        ensures
            decode_mip0_spec(copied.uniform_buffer_gpu.data@) == u,
    {
        lemma_mip0_round_trip(u);
    }
}

} // verus!
