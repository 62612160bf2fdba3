//! The descriptor and uniform layer: layout bindings, the
//! fixed-capacity descriptor pool, descriptor writes and the dynamic
//! offset into the shared uniform region.

use vstd::prelude::*;

verus! {

/// A uniform-buffer descriptor.
pub const DESCRIPTOR_TYPE_UNIFORM_BUFFER: u32 = 6;

/// A uniform-buffer descriptor whose byte offset is chosen at bind time.
pub const DESCRIPTOR_TYPE_UNIFORM_BUFFER_DYNAMIC: u32 = 8;

/// The binding is visible to the vertex shader stage.
pub const SHADER_STAGE_VERTEX: u32 = 0x1;

/// The binding is visible to the fragment shader stage.
pub const SHADER_STAGE_FRAGMENT: u32 = 0x10;

/// The number of descriptor sets the pool is created for, and the
/// number of descriptors of each type: chosen generously at startup.
pub const DESCRIPTOR_POOL_CAPACITY: u32 = 10;

/// Why a descriptor operation failed.
#[derive(Debug, Clone, Copy, PartialEq, Eq, Structural)]
pub enum VDescriptorError {
    /// The pool has no room for the requested sets.
    PoolExhausted,
}

/// One binding slot of a descriptor-set layout.
#[derive(Debug, Clone, Copy, PartialEq, Eq, Structural)]
pub struct VDescriptorSetLayoutBinding {
    pub binding: u32,
    pub descriptor_count: u32,
    pub descriptor_type: u32,
    pub stage_flags: u32,
}

/// Describes binding slot `binding` holding `count` descriptors of the
/// given type, visible to the given shader stages.
pub fn layout_binding(binding: u32, count: u32, descriptor_type: u32, stage_flags: u32) -> (r:
    VDescriptorSetLayoutBinding)
    ensures
        r == (VDescriptorSetLayoutBinding {
            binding,
            descriptor_count: count,
            descriptor_type,
            stage_flags,
        }),
{
    VDescriptorSetLayoutBinding { binding, descriptor_count: count, descriptor_type, stage_flags }
}

/// One descriptor write: points binding `binding` of set `dst_set` at
/// `range` bytes of `buffer` starting at `offset`.
#[derive(Debug, Clone, Copy, PartialEq, Eq, Structural)]
pub struct VWriteDescriptorSet {
    pub dst_set: u64,
    pub dst_binding: u32,
    pub descriptor_type: u32,
    pub buffer: u64,
    pub offset: u64,
    pub range: u64,
}

/// Builds the write that binds a buffer sub-range to one binding slot
/// of a descriptor set.
pub fn write_descriptor_set(
    dst_set: u64,
    binding: u32,
    descriptor_type: u32,
    buffer: u64,
    offset: u64,
    range: u64,
) -> (r: VWriteDescriptorSet)
    ensures
        r == (VWriteDescriptorSet {
            dst_set,
            dst_binding: binding,
            descriptor_type,
            buffer,
            offset,
            range,
        }),
{
    VWriteDescriptorSet { dst_set, dst_binding: binding, descriptor_type, buffer, offset, range }
}

/// The fixed-capacity descriptor pool: it can hand out at most
/// [`DESCRIPTOR_POOL_CAPACITY`] sets over its lifetime.
#[derive(Debug, Clone, Copy, PartialEq, Eq, Structural)]
pub struct VDescriptorPool {
    pub max_sets: u32,
    pub allocated_sets: u32,
}

impl VDescriptorPool {
    /// Creates the pool with its fixed capacity and nothing allocated.
    pub fn new() -> (r: Self)
        ensures
            r.max_sets == DESCRIPTOR_POOL_CAPACITY,
            r.allocated_sets == 0,
    {
        Self { max_sets: DESCRIPTOR_POOL_CAPACITY, allocated_sets: 0 }
    }

    /// Allocates `count` descriptor sets from the pool. Succeeds exactly
    /// when the pool still has room; exhaustion is an error, reported
    /// rather than retried.
    pub fn allocate_sets(&mut self, count: u32) -> (r: Result<(), VDescriptorError>)
        requires
            old(self).allocated_sets <= old(self).max_sets,
        ensures
            final(self).max_sets == old(self).max_sets,
            old(self).allocated_sets + count <= old(self).max_sets ==> r is Ok && final(self).allocated_sets == old(self).allocated_sets + count,
            old(self).allocated_sets + count > old(self).max_sets ==> r == Result::<
                (),
                VDescriptorError,
            >::Err(VDescriptorError::PoolExhausted) && final(self).allocated_sets == old(self).allocated_sets,
    {
        if count <= self.max_sets - self.allocated_sets {
            self.allocated_sets = self.allocated_sets + count;
            Ok(())
        } else {
            Err(VDescriptorError::PoolExhausted)
        }
    }
}

/// The byte offset, chosen at bind time, that selects frame slot
/// `frame_index`'s copy of the per-frame uniform data inside the shared
/// uniform region laid out with the given padded stride.
pub fn uniform_dynamic_offset(frame_index: u32, stride: u64) -> (r: u64)
    requires
        frame_index * stride <= u64::MAX,
    ensures
        r == frame_index * stride,
{
    (frame_index as u64) * stride
}

} // verus!
