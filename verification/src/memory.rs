//! Memory-type selection: finding the first device memory type that a
//! buffer's requirements admit and that carries the requested property
//! flags.
//!
//! The application queries the device for the requirement bitmask and the
//! per-type property flags and passes them in as plain values.

use vstd::prelude::*;

verus! {

/// Whether memory type `i` is acceptable: the requirement bitmask names it
/// and its property flags contain every requested flag.
pub open spec fn suitable_memory_type(
    memory_type_bits: u32,
    type_flags: u32,
    required: u32,
    i: u32,
) -> bool {
    &&& memory_type_bits & (1u32 << i) != 0
    &&& type_flags & required == required
}

/// Returns the index of the first suitable memory type, or `None` when no
/// type is suitable.
///
/// `memory_types` holds the property flags of each device memory type, in
/// device order; the platform reports at most 32 of them.
pub fn get_memory_type_index(
    memory_type_bits: u32,
    memory_types: &Vec<u32>,
    required: u32,
) -> (r: Option<u32>)
    requires
        memory_types@.len() <= 32,
    ensures
        match r {
            Some(i) => {
                &&& i < memory_types@.len()
                &&& suitable_memory_type(memory_type_bits, memory_types@[i as int], required, i)
                &&& forall|j: int|
                    0 <= j < i ==> !suitable_memory_type(
                        memory_type_bits,
                        memory_types@[j],
                        required,
                        j as u32,
                    )
            },
            None => forall|j: int|
                0 <= j < memory_types@.len() ==> !suitable_memory_type(
                    memory_type_bits,
                    memory_types@[j],
                    required,
                    j as u32,
                ),
        },
{
    let n = memory_types.len();
    let mut i: usize = 0;
    while i < n
        invariant
            n == memory_types@.len(),
            n <= 32,
            0 <= i <= n,
            forall|j: int|
                0 <= j < i ==> !suitable_memory_type(
                    memory_type_bits,
                    memory_types@[j],
                    required,
                    j as u32,
                ),
        decreases n - i,
    {
        let named = memory_type_bits & (1u32 << (i as u32)) != 0;
        let flags = memory_types[i];
        if named && flags & required == required {
            return Some(i as u32);
        }
        i += 1;
    }
    None
}

} // verus!
