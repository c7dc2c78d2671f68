//! Sizes that the executor of the integration step is set up with.
//!
//! The integration step runs once per particle, in groups of
//! [`WORKGROUP`] invocations; its buffers hold [`PARTICLE_BYTES`] bytes per
//! particle.

use vstd::prelude::*;

verus! {

/// Invocations per workgroup.
pub const WORKGROUP: usize = 256;

/// Bytes one packed particle occupies: twelve words of four bytes.
pub const PARTICLE_BYTES: u64 = 48;

/// The least number of workgroups that covers `population` invocations.
pub open spec fn groups_for(population: nat) -> nat {
    (population + 255) / 256
}

/// `groups_for` covers the population and has no group to spare.
pub proof fn lemma_groups_cover(population: nat)
    ensures
        groups_for(population) * 256 >= population,
        population > 0 ==> (groups_for(population) - 1) * 256 < population,
        population == 0 ==> groups_for(population) == 0,
{
}

/// The number of workgroups to dispatch for `population` particles, or
/// `None` if it does not fit the 32 bits of a dispatch size.
pub fn workgroups(population: usize) -> (r: Option<u32>)
    ensures
        r is Some <==> groups_for(population as nat) <= u32::MAX,
        r matches Some(count) ==> count == groups_for(population as nat),
{
    let whole: usize = population / WORKGROUP;
    let count: usize = if population % WORKGROUP == 0 {
        whole
    } else {
        whole + 1
    };
    if count > u32::MAX as usize {
        None
    } else {
        Some(count as u32)
    }
}

/// The size in bytes of a buffer of `population` packed particles, or `None`
/// if it does not fit 64 bits.
pub fn buffer_size(population: usize) -> (r: Option<u64>)
    ensures
        r is Some <==> population * 48 <= u64::MAX,
        r matches Some(bytes) ==> bytes == population * 48,
{
    if population as u64 > u64::MAX / PARTICLE_BYTES {
        None
    } else {
        Some(population as u64 * PARTICLE_BYTES)
    }
}

} // verus!
