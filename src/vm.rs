use vstd::prelude::*;

use crate::error::RandomxError;
use crate::flags::{has_bits, RandomxFlags, FLAG_FULL_MEM};

verus! {

/// Bytes in a RandomX digest.
pub const HASH_SIZE: usize = 32;

/// Whether `flags` ask for the full dataset.
pub open spec fn full_mem(flags: RandomxFlags) -> bool {
    has_bits(flags@, FLAG_FULL_MEM)
}

/// Checks the flags of a light-mode VM, bound to a cache: they must not ask
/// for the full dataset. The check comes before any engine call.
pub fn light_vm_flags(flags: RandomxFlags) -> (r: Result<RandomxFlags, RandomxError>)
    ensures
        full_mem(flags) ==> r == Err::<RandomxFlags, RandomxError>(RandomxError::VmAllocError),
        !full_mem(flags) ==> r == Ok::<RandomxFlags, RandomxError>(flags),
{
    let full = RandomxFlags::from_bits_truncate(FLAG_FULL_MEM);
    assert(4u32 & 127u32 == 4u32) by (bit_vector);
    if flags.contains(full) {
        Err(RandomxError::VmAllocError)
    } else {
        Ok(flags)
    }
}

/// Checks the flags of a fast-mode VM, bound to a dataset: they must ask
/// for the full dataset. The check comes before any engine call.
pub fn fast_vm_flags(flags: RandomxFlags) -> (r: Result<RandomxFlags, RandomxError>)
    ensures
        full_mem(flags) ==> r == Ok::<RandomxFlags, RandomxError>(flags),
        !full_mem(flags) ==> r == Err::<RandomxFlags, RandomxError>(RandomxError::VmAllocError),
{
    let full = RandomxFlags::from_bits_truncate(FLAG_FULL_MEM);
    assert(4u32 & 127u32 == 4u32) by (bit_vector);
    if flags.contains(full) {
        Ok(flags)
    } else {
        Err(RandomxError::VmAllocError)
    }
}

/// For any flag set, the set without the full-memory bit is accepted for a
/// light-mode VM and the set with it for a fast-mode VM: a light and a fast
/// VM can always be built from one flag set.
pub proof fn lemma_both_modes_from_one_flag_set(
    f: RandomxFlags,
    light: RandomxFlags,
    fast: RandomxFlags,
)
    requires
        light@ == f@ & !FLAG_FULL_MEM,
        fast@ == f@ | FLAG_FULL_MEM,
    ensures
        !full_mem(light),
        full_mem(fast),
{
    let x = f@;
    assert((x & !4u32) & 4u32 != 4u32) by (bit_vector);
    assert((x | 4u32) & 4u32 == 4u32) by (bit_vector);
}

} // verus!
