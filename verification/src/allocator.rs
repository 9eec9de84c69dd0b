//! Resource allocation with explicit memory placement, and the fake
//! allocator the model runs against.
//!
//! Every GPU object the pyramid owns is created once at construction and
//! destroyed once at teardown. The [`FakeAllocator`] hands out fresh handle
//! ids, counts the outstanding (created and not yet destroyed) objects, and
//! can be given a bounded budget to exercise the allocation-failure path.
//! Its well-formedness invariant — live handles are distinct and below the
//! next fresh id — is what makes "destroy releases exactly this object"
//! provable.

use vstd::prelude::*;

verus! {

broadcast use vstd::seq_lib::lemma_seq_contains_after_push;

/// Memory placement of a GPU resource.
#[derive(Clone, Copy, PartialEq, Eq, Structural, Debug)]
pub enum MemoryKind {
    /// Persistently mapped, CPU-writable memory.
    HostMapped,
    /// GPU-only memory.
    DeviceLocal,
}

/// Usage of a buffer in the uniform producer/consumer pair.
#[derive(Clone, Copy, PartialEq, Eq, Structural, Debug)]
pub enum BufferUsage {
    /// Source of a device-side transfer (the staging buffer).
    TransferSrc,
    /// Destination of a device-side transfer, read as a uniform buffer.
    TransferDstUniform,
}

/// Texel format of the pyramid's storage image.
#[derive(Clone, Copy, PartialEq, Eq, Structural, Debug)]
pub enum ImageFormat {
    /// A single 32-bit float channel.
    R32Float,
}

/// A buffer with explicit memory placement. `data` models its contents:
/// for a host-mapped buffer the persistently mapped bytes, for a
/// device-local buffer the bytes a device-side copy has written.
#[derive(Debug)]
pub struct GpuBuffer {
    /// Allocator handle of the buffer.
    pub id: u64,
    /// Byte size of the buffer.
    pub size: u64,
    /// Memory placement.
    pub kind: MemoryKind,
    /// Usage in the transfer pair.
    pub usage: BufferUsage,
    /// Modelled contents, always exactly `size` bytes.
    pub data: Vec<u8>,
}

impl GpuBuffer {
    /// The contents fill the stated size exactly.
    pub open spec fn wf(self) -> bool {
        self.data@.len() == self.size
    }
}

/// The pyramid's mip-0 storage image.
#[derive(Clone, Copy, PartialEq, Eq, Structural, Debug)]
pub struct GpuImage {
    /// Allocator handle of the image.
    pub id: u64,
    /// Width in texels.
    pub width: u32,
    /// Height in texels.
    pub height: u32,
    /// Texel format.
    pub format: ImageFormat,
    /// Number of mip levels; this image holds only level 0.
    pub mip_levels: u32,
    /// Number of array layers.
    pub array_layers: u32,
}

/// Creates and destroys GPU objects, tracking which handles are live.
///
/// A bounded `budget` models allocation failure: once it is spent, every
/// further allocation fails, which is how construction's all-or-nothing
/// error path is exercised.
#[derive(Debug)]
pub struct FakeAllocator {
    /// The next fresh handle id.
    pub next_id: u64,
    /// Allocations left before the allocator reports failure.
    pub budget: u64,
    /// Handles created and not yet destroyed, in creation order.
    pub live: Vec<u64>,
}

impl FakeAllocator {
    /// Live handles are distinct and below the next fresh id.
    pub open spec fn wf(self) -> bool {
        &&& forall|i: int, j: int|
            0 <= i < j < self.live@.len() ==> self.live@[i] != self.live@[j]
        &&& forall|i: int| 0 <= i < self.live@.len() ==> self.live@[i] < self.next_id
    }

    /// Number of outstanding allocations.
    pub open spec fn outstanding_spec(self) -> nat {
        self.live@.len()
    }

    /// Whether `id` is a live handle.
    pub open spec fn is_live(self, id: u64) -> bool {
        self.live@.contains(id)
    }

    /// A fresh allocator that will satisfy `budget` allocations.
    pub fn new(budget: u64) -> (a: FakeAllocator)
        ensures
            a.wf(),
            a.outstanding_spec() == 0,
            a.budget == budget,
            a.next_id == 0,
    {
        FakeAllocator { next_id: 0, budget, live: Vec::new() }
    }

    /// Creates one object, returning its fresh handle, or `None` when the
    /// budget is spent or the id space is exhausted.
    pub fn create(&mut self) -> (r: Option<u64>)
        requires
            old(self).wf(),
        ensures
            final(self).wf(),
            match r {
                Option::Some(id) => {
                    &&& old(self).budget > 0
                    &&& old(self).next_id < u64::MAX
                    &&& id == old(self).next_id
                    &&& !old(self).is_live(id)
                    &&& final(self).live@ == old(self).live@.push(id)
                    &&& final(self).next_id == old(self).next_id + 1
                    &&& final(self).budget == old(self).budget - 1
                },
                Option::None => {
                    &&& (old(self).budget == 0 || old(self).next_id == u64::MAX)
                    &&& *final(self) == *old(self)
                },
            },
    {
        if self.budget == 0 || self.next_id == u64::MAX {
            return None;
        }
        let id = self.next_id;
        self.next_id = self.next_id + 1;
        self.budget = self.budget - 1;
        proof {
            if old(self).live@.contains(id) {
                let i = old(self).live@.index_of(id);
                assert(old(self).live@[i] < id);
            }
        }
        self.live.push(id);
        Some(id)
    }

    /// Destroys the object behind a live handle.
    #[verifier::loop_isolation(false)]
    pub fn free(&mut self, id: u64)
        requires
            old(self).wf(),
            old(self).is_live(id),
        ensures
            final(self).wf(),
            final(self).outstanding_spec() == old(self).outstanding_spec() - 1,
            !final(self).is_live(id),
            forall|x: u64| x != id ==> final(self).is_live(x) == old(self).is_live(x),
            final(self).next_id == old(self).next_id,
            final(self).budget == old(self).budget,
    {
        let ghost s_old = self.live@;
        let n: usize = self.live.len();
        let mut i: usize = 0;
        while i < n
            invariant
                n == self.live@.len(),
                0 <= i <= n,
                self.live@ == s_old,
                self.next_id == old(self).next_id,
                self.budget == old(self).budget,
                s_old.contains(id),
                forall|j: int| 0 <= j < i ==> s_old[j] != id,
            decreases n - i,
        {
            if self.live[i] == id {
                self.live.remove(i);
                proof {
                    let s_new = self.live@;
                    assert(s_new == s_old.subrange(0, i as int)
                        + s_old.subrange(i as int + 1, s_old.len() as int));
                    assert forall|j: int| 0 <= j < s_new.len() implies
                        #[trigger] s_new[j] == (if j < i { s_old[j] } else { s_old[j + 1] }) by {
                        if j < i {
                            assert(s_new[j] == s_old.subrange(0, i as int)[j]);
                        } else {
                            assert(s_new[j]
                                == s_old.subrange(i as int + 1, s_old.len() as int)[j - i]);
                        }
                    }
                    assert forall|a: int, b: int|
                        0 <= a < b < s_old.len() implies s_old[a] != s_old[b] by {
                        assert(old(self).live@[a] == s_old[a]);
                        assert(old(self).live@[b] == s_old[b]);
                    }
                    assert(s_old[i as int] == id);
                    assert forall|j: int| 0 <= j < s_new.len() implies s_new[j] != id by {
                        if j < i {
                            assert(s_new[j] == s_old[j]);
                        } else {
                            assert(s_new[j] == s_old[j + 1]);
                            assert(s_old[i as int] != s_old[j + 1]);
                        }
                    }
                    assert(!s_new.contains(id));
                    assert forall|x: u64| x != id implies
                        s_new.contains(x) == s_old.contains(x) by {
                        if s_new.contains(x) {
                            let k = s_new.index_of(x);
                            if k < i {
                                assert(s_old[k] == x);
                            } else {
                                assert(s_old[k + 1] == x);
                            }
                        }
                        if s_old.contains(x) {
                            let k = s_old.index_of(x);
                            if k < i {
                                assert(s_new[k] == x);
                            } else {
                                assert(k != i);
                                assert(s_new[k - 1] == x);
                            }
                        }
                    }
                    assert forall|a: int, b: int|
                        0 <= a < b < s_new.len() implies s_new[a] != s_new[b] by {
                        let a_old: int = if a < i { a } else { a + 1 };
                        let b_old: int = if b < i { b } else { b + 1 };
                        assert(s_new[a] == s_old[a_old]);
                        assert(s_new[b] == s_old[b_old]);
                        assert(0 <= a_old < b_old < s_old.len());
                        assert(s_old[a_old] != s_old[b_old]);
                    }
                    assert forall|j: int| 0 <= j < s_new.len() implies
                        s_new[j] < self.next_id by {
                        if j < i {
                            assert(s_new[j] == s_old[j]);
                        } else {
                            assert(s_new[j] == s_old[j + 1]);
                        }
                    }
                }
                return;
            }
            i = i + 1;
        }
        proof {
            let k = s_old.index_of(id);
            assert(s_old[k] == id);
            assert(false);
        }
    }

    /// The allocator can satisfy `n` more allocations: budget left and id
    /// space not exhausted.
    pub open spec fn can_create_n(self, n: nat) -> bool {
        &&& self.budget >= n
        &&& self.next_id + n <= u64::MAX
    }

    /// Creates `n` objects, all or none: on failure every object created so
    /// far is destroyed again, so a failed construction leaks nothing.
    #[verifier::loop_isolation(false)]
    pub fn create_n(&mut self, n: usize) -> (r: Option<Vec<u64>>)
        requires
            old(self).wf(),
        ensures
            final(self).wf(),
            match r {
                Option::Some(ids) => {
                    &&& old(self).can_create_n(n as nat)
                    &&& ids@.len() == n
                    &&& forall|k: int| 0 <= k < n ==> ids@[k] == old(self).next_id + k
                    &&& forall|k: int| 0 <= k < n ==> !old(self).is_live(ids@[k])
                    &&& forall|k: int| 0 <= k < n ==> final(self).is_live(ids@[k])
                    &&& final(self).next_id == old(self).next_id + n
                    &&& final(self).budget == old(self).budget - n
                    &&& final(self).outstanding_spec() == old(self).outstanding_spec() + n
                    &&& forall|x: u64| old(self).is_live(x) ==> final(self).is_live(x)
                    &&& forall|x: u64|
                        final(self).is_live(x) ==> old(self).is_live(x) || ids@.contains(x)
                },
                Option::None => {
                    &&& !old(self).can_create_n(n as nat)
                    &&& final(self).outstanding_spec() == old(self).outstanding_spec()
                    &&& forall|x: u64| final(self).is_live(x) == old(self).is_live(x)
                },
            },
    {
        let ghost a0 = *self;
        let mut ids: Vec<u64> = Vec::new();
        let mut k: usize = 0;
        while k < n
            invariant
                0 <= k <= n,
                self.wf(),
                ids@.len() == k,
                forall|j: int| 0 <= j < k ==> ids@[j] == a0.next_id + j,
                forall|j: int| 0 <= j < k ==> !a0.is_live(ids@[j]),
                forall|j: int| 0 <= j < k ==> self.is_live(ids@[j]),
                self.next_id == a0.next_id + k,
                self.budget == a0.budget - k,
                a0.budget >= k,
                self.outstanding_spec() == a0.outstanding_spec() + k,
                forall|x: u64| a0.is_live(x) ==> self.is_live(x),
                forall|x: u64| self.is_live(x) ==> a0.is_live(x) || ids@.contains(x),
            decreases n - k,
        {
            match self.create() {
                Option::Some(id) => {
                    ids.push(id);
                    k = k + 1;
                },
                Option::None => {
                    // Roll back: destroy what was created, newest first.
                    proof {
                        assert(!a0.can_create_n(n as nat));
                    }
                    let mut j: usize = k;
                    while j > 0
                        invariant
                            0 <= j <= k,
                            self.wf(),
                            ids@.len() == k,
                            forall|q: int| 0 <= q < k ==> ids@[q] == a0.next_id + q,
                            forall|q: int| 0 <= q < k ==> !a0.is_live(ids@[q]),
                            forall|q: int| 0 <= q < j ==> self.is_live(ids@[q]),
                            forall|q: int| j <= q < k ==> !self.is_live(ids@[q]),
                            self.outstanding_spec() == a0.outstanding_spec() + j,
                            forall|x: u64| a0.is_live(x) ==> self.is_live(x),
                            forall|x: u64|
                                self.is_live(x) ==> a0.is_live(x) || ids@.contains(x),
                        decreases j,
                    {
                        j = j - 1;
                        self.free(ids[j]);
                    }
                    proof {
                        assert forall|x: u64| self.is_live(x) == a0.is_live(x) by {
                            if self.is_live(x) {
                                if ids@.contains(x) {
                                    let q = ids@.index_of(x);
                                    assert(!self.is_live(ids@[q]));
                                }
                            }
                        }
                    }
                    return None;
                },
            }
        }
        Some(ids)
    }

    /// Number of outstanding allocations.
    pub fn outstanding(&self) -> (n: usize)
        ensures
            n == self.outstanding_spec(),
    {
        self.live.len()
    }
}

} // verus!
