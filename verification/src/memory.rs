//! Memory-type selection: choosing a device memory type for a resource.
//!
//! The device reports a table of memory types, each with a word of
//! property flags; a resource reports a bitmask of the type indices it
//! can live in and the caller asks for a set of property flags. The
//! selection scans the table and picks the lowest-indexed compatible
//! type, and fails deterministically when none qualifies.

use vstd::prelude::*;

verus! {

/// Host-visible memory: the CPU can map it.
pub const MEMORY_PROPERTY_HOST_VISIBLE: u32 = 0x2;

/// Host-coherent memory: mapped writes need no explicit flush.
pub const MEMORY_PROPERTY_HOST_COHERENT: u32 = 0x4;

/// Device-local memory: the fastest for the GPU, not host-accessible.
pub const MEMORY_PROPERTY_DEVICE_LOCAL: u32 = 0x1;

/// Why a memory operation failed.
#[derive(Debug, Clone, Copy, PartialEq, Eq, Structural)]
pub enum VMemoryError {
    /// No memory type satisfies both the resource's type mask and the
    /// requested property flags; the device cannot back the resource.
    NoSuitableMemoryType,
}

/// Memory type `i` of the table qualifies: the resource's mask has bit
/// `i` set and the type's property flags are a superset of the requested
/// flags.
pub open spec fn memory_type_suitable(
    memory_types: Seq<u32>,
    memory_type_bits: u32,
    flags: u32,
    i: int,
) -> bool {
    &&& 0 <= i < memory_types.len()
    &&& memory_types[i] & flags == flags
    &&& (memory_type_bits >> (i as u32)) & 1u32 == 1u32
}

/// Selects the lowest-indexed memory type whose property flags contain
/// `flags` and whose index is set in `memory_type_bits`; reports
/// [`VMemoryError::NoSuitableMemoryType`] exactly when no type
/// qualifies.
///
/// `memory_types` holds one property-flag word per reported memory type;
/// the graphics API caps the table at 32 entries, matching the width of
/// the type mask.
pub fn find_memory_type_index(
    memory_types: &Vec<u32>,
    memory_type_bits: u32,
    flags: u32,
) -> (r: Result<u32, VMemoryError>)
    requires
        memory_types@.len() <= 32,
    ensures
        match r {
            Ok(i) => {
                &&& memory_type_suitable(memory_types@, memory_type_bits, flags, i as int)
                &&& forall|j: int|
                    0 <= j < i ==> !memory_type_suitable(memory_types@, memory_type_bits, flags, j)
            },
            Err(e) => {
                &&& e == VMemoryError::NoSuitableMemoryType
                &&& forall|j: int| !memory_type_suitable(memory_types@, memory_type_bits, flags, j)
            },
        },
{
    let n = memory_types.len();
    let mut ind: usize = 0;
    while ind < n
        invariant
            n == memory_types@.len() <= 32,
            ind <= n,
            forall|j: int| 0 <= j < ind ==> !memory_type_suitable(memory_types@, memory_type_bits, flags, j),
        decreases n - ind,
    {
        let mem_type_flags = memory_types[ind];
        if mem_type_flags & flags == flags && (memory_type_bits >> (ind as u32)) & 1u32 == 1u32 {
            return Ok(ind as u32);
        }
        ind = ind + 1;
    }
    Err(VMemoryError::NoSuitableMemoryType)
}

} // verus!
