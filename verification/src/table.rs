//! Model of the translation entries covering the lazy range.
//!
//! The hardware page table is keyed by virtual address and owned by the
//! address space; this model keeps one slot per page of the managed
//! range, holding the physical frame installed there, if any.  The
//! kernel mirrors every change the core makes here onto the real table.

use vstd::prelude::*;

verus! {

/// One slot per page of the managed range: `Some(frame)` where a
/// translation entry is installed, `None` where the page is unmapped.
#[derive(Clone, Debug)]
pub struct PageTable {
    pub entries: Vec<Option<usize>>,
}

impl View for PageTable {
    type V = Seq<Option<usize>>;

    open spec fn view(&self) -> Seq<Option<usize>> {
        self.entries@
    }
}

impl PageTable {
    /// Whether page `i` has a translation entry installed.
    pub open spec fn maps(self, i: int) -> bool {
        self@[i] is Some
    }

    /// Wraps the entries the range was provisioned with, in page order.
    pub fn new(entries: Vec<Option<usize>>) -> (r: PageTable)
        ensures
            r@ == entries@,
    {
        PageTable { entries }
    }

    /// How many pages the model covers.
    pub fn len(&self) -> (n: usize)
        ensures
            n == self@.len(),
    {
        self.entries.len()
    }

    /// Whether page `i` has a translation entry installed.
    pub fn is_mapped(&self, i: usize) -> (r: bool)
        requires
            i < self@.len(),
        ensures
            r == self.maps(i as int),
    {
        self.entries[i].is_some()
    }

    /// Removes the entry for page `i`.  Removing an absent entry is not
    /// an error; the returned flag tells whether one was present.
    pub fn unmap(&mut self, i: usize) -> (was_mapped: bool)
        requires
            i < old(self)@.len(),
        ensures
            final(self)@ == old(self)@.update(i as int, None::<usize>),
            was_mapped == old(self).maps(i as int),
    {
        let was_mapped = self.entries[i].is_some();
        self.entries.set(i, None);
        was_mapped
    }

    /// Installs `frame` as the entry for page `i`.  The page must be
    /// unmapped: installing over a live entry is the hard failure the
    /// design rules out by never faulting twice on one page.
    pub fn map(&mut self, i: usize, frame: usize)
        requires
            i < old(self)@.len(),
            !old(self).maps(i as int),
        ensures
            final(self)@ == old(self)@.update(i as int, Some(frame)),
    {
        self.entries.set(i, Some(frame));
    }
}

} // verus!
