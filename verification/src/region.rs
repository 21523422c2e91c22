//! The lazily backed stack range and its pre-allocated frame pool.

use vstd::prelude::*;

use crate::page::align_down_4k_spec;
use crate::page::is_aligned_4k;
use crate::page::page_aligned;

verus! {

/// A page-aligned virtual range `[base, top)`: the user stack that is
/// backed on demand.
#[derive(Clone, Copy, Debug, PartialEq, Eq, Structural)]
pub struct StackRegion {
    pub base: usize,
    pub top: usize,
}

impl StackRegion {
    /// Both bounds on page boundaries, and the range non-empty.
    pub open spec fn wf(self) -> bool {
        &&& page_aligned(self.base)
        &&& page_aligned(self.top)
        &&& self.base < self.top
    }

    /// How many pages the range covers.
    pub open spec fn page_count(self) -> int {
        (self.top - self.base) / 4096
    }

    /// Whether `a` falls inside the range.
    pub open spec fn contains(self, a: usize) -> bool {
        self.base <= a < self.top
    }

    /// The first address of the `k`-th page of the range.
    pub open spec fn page_va(self, k: int) -> int {
        self.base + k * 4096
    }

    /// Which page of the range the address `a` falls on.
    pub open spec fn page_index_of(self, a: usize) -> int {
        (align_down_4k_spec(a) - self.base) / 4096
    }

    /// Builds the range after checking alignment and order; rejects
    /// exactly the inputs that break the range invariant.
    pub fn new(base: usize, top: usize) -> (r: Option<StackRegion>)
        ensures
            r is Some <==> (page_aligned(base) && page_aligned(top) && base < top),
            r matches Some(region) ==> region == (StackRegion { base, top }),
    {
        if is_aligned_4k(base) && is_aligned_4k(top) && base < top {
            Some(StackRegion { base, top })
        } else {
            None
        }
    }

    /// Range check for a faulting address.
    pub fn contains_addr(&self, a: usize) -> (r: bool)
        ensures
            r == self.contains(a),
    {
        self.base <= a && a < self.top
    }

    /// The number of pages, as computed at bootstrap time.
    pub fn count_pages(&self) -> (n: usize)
        requires
            self.wf(),
        ensures
            n == self.page_count(),
    {
        (self.top - self.base) / 4096
    }
}

/// For an in-range address: aligning down stays in range, the page index
/// is in bounds, and the index points back at the aligned address.
pub proof fn lemma_page_index(region: StackRegion, a: usize)
    requires
        region.wf(),
        region.contains(a),
    ensures
        region.base <= align_down_4k_spec(a),
        align_down_4k_spec(a) + 4096 <= region.top,
        a < align_down_4k_spec(a) + 4096,
        0 <= region.page_index_of(a) < region.page_count(),
        region.page_va(region.page_index_of(a)) == align_down_4k_spec(a),
{
    let al = align_down_4k_spec(a);
    assert(region.base <= al && al + 4096 <= region.top && a < al + 4096
        && 0 <= (al - region.base) / 4096
        && (al - region.base) / 4096 < (region.top - region.base) / 4096
        && region.base + ((al - region.base) / 4096) * 4096 == al)
        by (nonlinear_arith)
        requires
            al == (a - a % 4096) as usize,
            region.base % 4096 == 0,
            region.top % 4096 == 0,
            region.base <= a < region.top,
    ;
}

/// Two addresses on the same page share the page index.
pub proof fn lemma_same_page_same_index(region: StackRegion, a: usize, b: usize)
    requires
        align_down_4k_spec(a) == align_down_4k_spec(b),
    ensures
        region.page_index_of(a) == region.page_index_of(b),
{
}

/// An address inside the `k`-th page of the range has page index `k`.
pub proof fn lemma_index_of_page_offset(region: StackRegion, k: int, a: usize)
    requires
        region.wf(),
        0 <= k < region.page_count(),
        region.page_va(k) <= a < region.page_va(k + 1),
    ensures
        region.contains(a),
        region.page_index_of(a) == k,
{
    assert(region.base <= a < region.top
        && ((a - a % 4096) as usize - region.base) / 4096 == k)
        by (nonlinear_arith)
        requires
            region.base % 4096 == 0,
            region.top % 4096 == 0,
            region.base < region.top,
            0 <= k < (region.top - region.base) / 4096,
            region.base + k * 4096 <= a,
            a < region.base + (k + 1) * 4096,
    ;
}

/// The ordered pool of physical frames backing the range: frame `i`
/// backs the page at `base + i * 4096`.
#[derive(Clone, Debug)]
pub struct FramePool {
    pub frames: Vec<usize>,
}

impl View for FramePool {
    type V = Seq<usize>;

    open spec fn view(&self) -> Seq<usize> {
        self.frames@
    }
}

impl FramePool {
    /// Wraps the pre-allocated frame addresses, in page order.
    pub fn new(frames: Vec<usize>) -> (r: FramePool)
        ensures
            r@ == frames@,
    {
        FramePool { frames }
    }

    /// How many frames the pool holds.
    pub fn len(&self) -> (n: usize)
        ensures
            n == self@.len(),
    {
        self.frames.len()
    }

    /// The frame backing page `i`.
    pub fn frame(&self, i: usize) -> (r: usize)
        requires
            i < self@.len(),
        ensures
            r == self@[i as int],
    {
        self.frames[i]
    }
}

} // verus!
