use vstd::prelude::*;

verus! {

/// Queue capability bit for graphics (`VK_QUEUE_GRAPHICS_BIT`).
pub const QUEUE_GRAPHICS: u32 = 0x1;

/// Memory property bits (`VkMemoryPropertyFlags`).
pub const MEMORY_PROPERTY_DEVICE_LOCAL: u32 = 0x1;

pub const MEMORY_PROPERTY_HOST_VISIBLE: u32 = 0x2;

pub const MEMORY_PROPERTY_HOST_COHERENT: u32 = 0x4;

/// A device reports at most this many memory types.
pub const MAX_MEMORY_TYPES: usize = 32;

/// Whether memory type `index` is allowed by `type_bits` and has every
/// property in `flags`.
pub open spec fn memory_type_fits(property_flags: u32, index: int, type_bits: u32, flags: u32) -> bool {
    &&& (1u32 << (index as u32)) & type_bits != 0
    &&& property_flags & flags == flags
}

/// The first of the device's `memory_type_count` memory types that the
/// requirements allow and that has all the requested properties.
pub fn find_memory_type_index(
    memory_type_flags: &Vec<u32>,
    memory_type_count: u32,
    memory_type_bits: u32,
    flags: u32,
) -> (r: Option<u32>)
    requires
        memory_type_count as int <= memory_type_flags@.len(),
        memory_type_count as int <= MAX_MEMORY_TYPES,
    ensures
        r matches Some(i) ==> {
            &&& i < memory_type_count
            &&& memory_type_fits(memory_type_flags@[i as int], i as int, memory_type_bits, flags)
            &&& forall|j: int|
                0 <= j < i ==> !memory_type_fits(memory_type_flags@[j], j, memory_type_bits, flags)
        },
        r is None ==> forall|j: int|
            0 <= j < memory_type_count ==> !memory_type_fits(
                memory_type_flags@[j],
                j,
                memory_type_bits,
                flags,
            ),
{
    let mut i: u32 = 0;
    while i < memory_type_count
        invariant
            memory_type_count as int <= memory_type_flags@.len(),
            memory_type_count as int <= MAX_MEMORY_TYPES,
            i <= memory_type_count,
            forall|j: int|
                0 <= j < i ==> !memory_type_fits(memory_type_flags@[j], j, memory_type_bits, flags),
        decreases memory_type_count - i,
    {
        let props = memory_type_flags[i as usize];
        if (1u32 << i) & memory_type_bits != 0 && props & flags == flags {
            return Some(i);
        }
        i = i + 1;
    }
    None
}

/// The first queue family that supports graphics.
pub fn find_graphics_queue_family(queue_flags: &Vec<u32>) -> (r: Option<u32>)
    requires
        queue_flags@.len() <= u32::MAX,
    ensures
        r matches Some(i) ==> {
            &&& i < queue_flags@.len()
            &&& queue_flags@[i as int] & QUEUE_GRAPHICS == QUEUE_GRAPHICS
            &&& forall|j: int| 0 <= j < i ==> queue_flags@[j] & QUEUE_GRAPHICS != QUEUE_GRAPHICS
        },
        r is None ==> forall|j: int|
            0 <= j < queue_flags@.len() ==> queue_flags@[j] & QUEUE_GRAPHICS != QUEUE_GRAPHICS,
{
    let mut i: usize = 0;
    while i < queue_flags.len()
        invariant
            i <= queue_flags@.len(),
            queue_flags@.len() <= u32::MAX,
            forall|j: int| 0 <= j < i ==> queue_flags@[j] & QUEUE_GRAPHICS != QUEUE_GRAPHICS,
        decreases queue_flags@.len() - i,
    {
        if queue_flags[i] & QUEUE_GRAPHICS == QUEUE_GRAPHICS {
            return Some(i as u32);
        }
        i = i + 1;
    }
    None
}

pub open spec fn contains_name(names: Seq<String>, n: Seq<char>) -> bool {
    exists|i: int| 0 <= i < names.len() && (#[trigger] names[i])@ == n
}

fn has_name(names: &Vec<String>, n: &String) -> (r: bool)
    ensures
        r == contains_name(names@, n@),
{
    let mut i: usize = 0;
    while i < names.len()
        invariant
            i <= names@.len(),
            forall|j: int| 0 <= j < i ==> names@[j]@ != n@,
        decreases names@.len() - i,
    {
        if names[i].eq(n) {
            return true;
        }
        i = i + 1;
    }
    false
}

/// Whether the device supports every one of the required extensions, which
/// is what ray tracing needs.
pub fn extensions_supported(supported: &Vec<String>, required: &Vec<String>) -> (r: bool)
    ensures
        r == forall|i: int| 0 <= i < required@.len() ==> contains_name(supported@, #[trigger] required@[i]@),
{
    let mut i: usize = 0;
    while i < required.len()
        invariant
            i <= required@.len(),
            forall|j: int| 0 <= j < i ==> contains_name(supported@, #[trigger] required@[j]@),
        decreases required@.len() - i,
    {
        if !has_name(supported, &required[i]) {
            return false;
        }
        i = i + 1;
    }
    true
}

} // verus!
