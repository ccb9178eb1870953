//! Shared-address-space resolution and address tagging.
//!
//! The guest learns its physical address width once, from the guest-info
//! leaf, and derives from it the single address bit that marks a guest
//! physical address as host-shared. Only widths 48 and 52 are supported;
//! any other width leaves the guest unable to tell which addresses the host
//! can see, so no mask is produced and the caller must treat the
//! configuration as fatal. The platform caches the derived mask process-wide;
//! the derivation itself is pure.

use vstd::prelude::*;

verus! {

/// The shared-address mask derived from a guest physical address width:
/// the low six bits of the reported width are read, and only 48 and 52 are
/// accepted, giving a mask of one bit at position width − 1.
pub open spec fn spec_shared_mask(gpaw: u64) -> Option<u64> {
    if gpaw & 0x3f == 48 {
        Some(0x8000_0000_0000u64)
    } else if gpaw & 0x3f == 52 {
        Some(0x8_0000_0000_0000u64)
    } else {
        None
    }
}

/// Derives the shared-address mask from the reported guest physical address
/// width: `1 << (width - 1)` for the supported widths 48 and 52, and no mask
/// for any other width.
pub fn td_shared_mask(gpaw: u64) -> (r: Option<u64>)
    ensures
        r == spec_shared_mask(gpaw),
        gpaw & 0x3f == 48 ==> r == Some(1u64 << 47),
        gpaw & 0x3f == 52 ==> r == Some(1u64 << 51),
        gpaw & 0x3f != 48 && gpaw & 0x3f != 52 ==> r is None,
{
    proof {
        assert((1u64 << 47) == 0x8000_0000_0000u64) by (bit_vector);
        assert((1u64 << 51) == 0x8_0000_0000_0000u64) by (bit_vector);
    }
    let width: u64 = gpaw & 0x3f;
    if width == 48 {
        Some(1u64 << 47)
    } else if width == 52 {
        Some(1u64 << 51)
    } else {
        None
    }
}

/// The address operand sent to the remapping leaf: conversion to shared sets
/// the mask bit; conversion to private clears it.
pub open spec fn spec_mapgpa_operand(shared: bool, paddr: u64, mask: u64) -> u64 {
    if shared {
        paddr | mask
    } else {
        paddr & !mask
    }
}

/// Round-trip law: converting an address to shared and then converting the
/// result back to private yields the very operand that converting the
/// original address to private yields — and conversely, re-sharing an
/// address that was converted to private restores the shared operand. The
/// tagging bit pattern a later call sends is as if the detour never happened.
pub proof fn lemma_mapgpa_round_trip(paddr: u64, mask: u64)
    ensures
        spec_mapgpa_operand(false, spec_mapgpa_operand(true, paddr, mask), mask)
            == spec_mapgpa_operand(false, paddr, mask),
        spec_mapgpa_operand(true, spec_mapgpa_operand(false, paddr, mask), mask)
            == spec_mapgpa_operand(true, paddr, mask),
{
    assert(((paddr | mask) & !mask) == (paddr & !mask)) by (bit_vector);
    assert(((paddr & !mask) | mask) == (paddr | mask)) by (bit_vector);
}

} // verus!
