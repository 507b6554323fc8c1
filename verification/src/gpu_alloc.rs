//! Choice of a Vulkan memory type for an allocation.
//!
//! A physical device offers up to 32 memory types, each with a set of
//! property flags.  A resource states which memory types it may live in as a
//! bit mask; an allocation asks for a set of properties.  The memory type
//! used is the first allowed one whose flags include all requested
//! properties.
use vstd::prelude::*;

verus! {

/// Memory that is fast to access from the device.
pub const MEMORY_PROPERTY_DEVICE_LOCAL: u32 = 0x1;

/// Memory that the host can map.
pub const MEMORY_PROPERTY_HOST_VISIBLE: u32 = 0x2;

/// Memory whose host writes and reads need no explicit flush.
pub const MEMORY_PROPERTY_HOST_COHERENT: u32 = 0x4;

/// Memory that the host caches.
pub const MEMORY_PROPERTY_HOST_CACHED: u32 = 0x8;

/// Properties of memory that the host reads back: host visible and cached.
pub fn staging_flags() -> (r: u32)
    ensures
        r == MEMORY_PROPERTY_HOST_VISIBLE | MEMORY_PROPERTY_HOST_CACHED,
{
    MEMORY_PROPERTY_HOST_VISIBLE | MEMORY_PROPERTY_HOST_CACHED
}

/// Properties of the memory a frame is rendered into for the host to read
/// in place: host coherent and cached.
pub fn mapped_flags() -> (r: u32)
    ensures
        r == MEMORY_PROPERTY_HOST_COHERENT | MEMORY_PROPERTY_HOST_CACHED,
{
    MEMORY_PROPERTY_HOST_COHERENT | MEMORY_PROPERTY_HOST_CACHED
}

/// Properties of memory that only the device uses: device local.
pub fn device_flags() -> (r: u32)
    ensures
        r == MEMORY_PROPERTY_DEVICE_LOCAL,
{
    MEMORY_PROPERTY_DEVICE_LOCAL
}

/// Bit `i` of `mask` is set.
pub open spec fn bit_set(mask: u32, i: u32) -> bool {
    (mask >> i) & 1u32 == 1u32
}

/// `flags` include every property of `properties`.
pub open spec fn includes(flags: u32, properties: u32) -> bool {
    properties & flags == properties
}

/// The memory types of a physical device: the property flags of each.
pub struct MemoryTypes {
    pub property_flags: [u32; 32],
}

impl MemoryTypes {
    /// Memory type `i` is allowed by `allowed` and has all of `properties`.
    pub open spec fn suitable(&self, properties: u32, allowed: u32, i: int) -> bool {
        &&& 0 <= i < 32
        &&& bit_set(allowed, i as u32)
        &&& includes(self.property_flags[i], properties)
    }

    /// The first memory type, by index, that `allowed` permits and whose
    /// flags include `properties`; `None` where there is none.
    pub fn find_mem_type(&self, properties: u32, allowed_mem_types: u32) -> (r: Option<u32>)
        ensures
            match r {
                Some(i) => self.suitable(properties, allowed_mem_types, i as int) && forall|j: int|
                    0 <= j < i ==> !#[trigger] self.suitable(properties, allowed_mem_types, j),
                None => forall|j: int|
                    0 <= j < 32 ==> !#[trigger] self.suitable(properties, allowed_mem_types, j),
            },
    {
        let mut allowed = allowed_mem_types;
        let mut i: u32 = 0;
        assert(allowed_mem_types >> 0u32 == allowed_mem_types) by (bit_vector);
        while allowed != 0
            invariant
                i <= 32,
                allowed == allowed_mem_types >> i,
                forall|j: int| 0 <= j < i ==> !#[trigger] self.suitable(properties, allowed_mem_types, j),
            decreases 32 - i,
        {
            proof {
                lemma_nonzero_shift_below_width(allowed_mem_types, i);
            }
            assert(i < 32);
            proof {
                lemma_low_bit(allowed_mem_types, i);
            }
            if (allowed & 0x01) != 0 && (properties & self.property_flags[i as usize]) == properties {
                return Some(i);
            }
            proof {
                lemma_shift_step(allowed_mem_types, i);
            }
            allowed = allowed >> 1u32;
            i = i + 1;
        }
        proof {
            assert forall|j: int| 0 <= j < 32 implies !#[trigger] self.suitable(
                properties,
                allowed_mem_types,
                j,
            ) by {
                if j >= i {
                    lemma_zero_shift_clears_bits(allowed_mem_types, i, j as u32);
                }
            }
        }
        None
    }
}

proof fn lemma_nonzero_shift_below_width(a: u32, i: u32)
    requires
        i <= 32,
        a >> i != 0,
    ensures
        i < 32,
{
    assert(i == 32 ==> a >> i == 0) by (bit_vector);
}

proof fn lemma_low_bit(a: u32, i: u32)
    requires
        i < 32,
    ensures
        ((a >> i) & 0x01u32 != 0) == bit_set(a, i),
{
    assert(((a >> i) & 0x01u32 != 0) == ((a >> i) & 1u32 == 1u32)) by (bit_vector);
}

proof fn lemma_shift_step(a: u32, i: u32)
    requires
        i < 32,
    ensures
        (a >> i) >> 1u32 == a >> ((i + 1) as u32),
{
    assert((a >> i) >> 1u32 == a >> ((i + 1) as u32)) by (bit_vector)
        requires
            i < 32,
    ;
}

proof fn lemma_zero_shift_clears_bits(a: u32, i: u32, j: u32)
    requires
        i <= j < 32,
        a >> i == 0,
    ensures
        !bit_set(a, j),
{
    assert((a >> j) & 1u32 != 1u32) by (bit_vector)
        requires
            i <= j < 32,
            a >> i == 0,
    ;
}

} // verus!
