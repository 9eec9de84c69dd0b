//! Descriptor binding: the fixed 3-slot binding set and the pool it is
//! allocated from.
//!
//! The binding set associates slot 0 with the device-local uniform buffer,
//! slot 1 with the sampled input depth view, and slot 2 with the writable
//! output image view. All three slots are written atomically, once, at
//! construction. Partial rebinding is deliberately unsupported: if the input
//! depth view changes (a window resize), the caller must destroy and rebuild
//! the whole pyramid instance rather than rebind — there is no update
//! operation to misuse.

use vstd::prelude::*;

verus! {

/// A pool that hands out descriptor sets. The sets belong to the pool: they
/// are not destroyed one by one, so the pool only counts what it has given
/// out.
#[derive(Clone, Copy, PartialEq, Eq, Structural, Debug)]
pub struct DescriptorPool {
    /// Number of sets allocated so far; also the next set's handle.
    pub allocated: u64,
}

impl DescriptorPool {
    /// An empty pool.
    pub fn new() -> (p: DescriptorPool)
        ensures
            p.allocated == 0,
    {
        DescriptorPool { allocated: 0 }
    }

    /// Allocates one descriptor set and returns its handle.
    pub fn allocate_set(&mut self) -> (id: u64)
        requires
            old(self).allocated < u64::MAX,
        ensures
            id == old(self).allocated,
            final(self).allocated == old(self).allocated + 1,
    {
        let id = self.allocated;
        self.allocated = self.allocated + 1;
        id
    }
}

/// The fixed association of the three resource slots with one descriptor
/// set and its layout.
#[derive(Clone, Copy, PartialEq, Eq, Structural, Debug)]
pub struct BindingSet {
    /// The descriptor set the slots are written into.
    pub descriptor_set: u64,
    /// Layout the set was allocated with.
    pub desc_set_layout: u64,
    /// Slot 0: the device-local uniform buffer.
    pub uniform_buffer: u64,
    /// Slot 1: the sampled input depth view.
    pub input_depth_view: u64,
    /// Sampler used with slot 1.
    pub sampler: u64,
    /// Slot 2: the writable output image view.
    pub output_image_view: u64,
}

/// Writes all three slots at once. This is the only way a binding set comes
/// to be; no partial update exists.
pub fn bind(
    descriptor_set: u64,
    desc_set_layout: u64,
    uniform_buffer: u64,
    input_depth_view: u64,
    sampler: u64,
    output_image_view: u64,
) -> (b: BindingSet)
    ensures
        b == (BindingSet {
            descriptor_set,
            desc_set_layout,
            uniform_buffer,
            input_depth_view,
            sampler,
            output_image_view,
        }),
{
    BindingSet {
        descriptor_set,
        desc_set_layout,
        uniform_buffer,
        input_depth_view,
        sampler,
        output_image_view,
    }
}

} // verus!
