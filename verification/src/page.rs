//! Page-size constant and 4K alignment arithmetic.

use vstd::prelude::*;

verus! {

/// Size of one page, in bytes.  A hardware/ABI constant of this design.
pub const PAGE_SIZE_4K: usize = 4096;

/// An address that lies on a page boundary.
pub open spec fn page_aligned(a: usize) -> bool {
    a % 4096 == 0
}

/// The page boundary at or below `a`.
pub open spec fn align_down_4k_spec(a: usize) -> usize {
    (a - a % 4096) as usize
}

/// Relies on `memory_addr::align_down_4k`: returns `addr & !(4096 - 1)`,
/// the greatest 4096-aligned address not above `addr`.
#[verifier::external_body]
pub(crate) fn align_down_4k(addr: usize) -> (r: usize)
    ensures
        r == align_down_4k_spec(addr),
{
    memory_addr::align_down_4k(addr)
}

/// Relies on `memory_addr::is_aligned_4k`: documented as equivalent to
/// `addr % 4096 == 0`.
#[verifier::external_body]
pub(crate) fn is_aligned_4k(addr: usize) -> (r: bool)
    ensures
        r == page_aligned(addr),
{
    memory_addr::is_aligned_4k(addr)
}

} // verus!
