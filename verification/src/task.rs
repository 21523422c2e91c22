//! Task bootstrap and the trap-dispatch decisions.
//!
//! `spawn_user_task` validates the stack range against its frame pool,
//! removes every translation entry covering the range, and records what
//! the scheduler and the first user entry need.  `handle_trap` is the
//! body of the dispatch loop: it classifies why user mode returned and
//! either installs the missing stack page, asks for the syscall
//! gateway, or terminates the task.

use vstd::prelude::*;

use crate::page::PAGE_SIZE_4K;
use crate::page::align_down_4k;
use crate::page::align_down_4k_spec;
use crate::region::FramePool;
use crate::region::StackRegion;
use crate::region::lemma_index_of_page_offset;
use crate::region::lemma_page_index;
use crate::region::lemma_same_page_same_index;
use crate::table::PageTable;

verus! {

/// Register state the user context is built from: program entry point,
/// initial stack pointer, and the first argument register.
#[derive(Clone, Copy, Debug, PartialEq, Eq, Structural)]
pub struct UserContext {
    pub entry: usize,
    pub sp: usize,
    pub arg0: usize,
}

/// The task's address space as the core sees it: the page-table root
/// the scheduler must install, and the entries covering the lazy range.
#[derive(Clone, Debug)]
pub struct AddrSpace {
    pub root: usize,
    pub table: PageTable,
}

/// Why resuming the user context returned to the kernel.
#[derive(Clone, Copy, Debug, PartialEq, Eq, Structural)]
pub enum ReturnReason {
    /// The program issued a system call.
    Syscall,
    /// An access faulted: the faulting address and the access-kind bits.
    PageFault(usize, usize),
    /// Any other trap, carrying its descriptor.
    Other(usize),
}

/// What the kernel must do next with the task.
#[derive(Clone, Copy, Debug, PartialEq, Eq, Structural)]
pub enum Directive {
    /// Re-enter user mode.
    ResumeUser,
    /// Hand the context to the syscall gateway, then route its answer
    /// through `syscall_outcome`.
    InvokeSyscall,
    /// Install `frame` at page boundary `vpage` on the hardware table,
    /// then re-enter user mode.
    MapAndResume { vpage: usize, frame: usize },
    /// Terminate the task with the given exit code.
    Exit(i32),
}

/// What handling one page fault decided.
#[derive(Clone, Copy, Debug, PartialEq, Eq, Structural)]
pub enum FaultOutcome {
    /// The entry was installed; the faulting access can be re-executed.
    Installed { vpage: usize, frame: usize },
    /// The address lies outside the managed range.
    OutOfRange,
}

/// The schedulable unit: the lazy stack range, its frame pool, the
/// address space, and the context the task first enters user mode with.
pub struct UserTask {
    pub region: StackRegion,
    pub pool: FramePool,
    pub aspace: AddrSpace,
    pub ctx: UserContext,
}

impl UserTask {
    /// The structural invariant: a well-formed range, one pool frame
    /// and one table slot per page of it.
    pub open spec fn wf(self) -> bool {
        &&& self.region.wf()
        &&& self.pool@.len() == self.region.page_count()
        &&& self.aspace.table@.len() == self.region.page_count()
    }

    /// Every installed entry holds the pool frame of its own page.
    pub open spec fn frames_consistent(self) -> bool {
        forall|i: int|
            0 <= i < self.aspace.table@.len() ==> ((#[trigger] self.aspace.table@[i])
                matches Some(f) ==> f == self.pool@[i])
    }

    /// Whether an access at `a` (inside the range) would fault: no
    /// translation entry is installed for its page.
    pub open spec fn stack_access_faults(self, a: usize) -> bool {
        !self.aspace.table.maps(self.region.page_index_of(a))
    }

    /// Whether the page holding `a` currently has no entry, i.e. the
    /// state in which an access there traps.
    pub fn stack_page_unmapped(&self, a: usize) -> (r: bool)
        requires
            self.wf(),
            self.region.contains(a),
        ensures
            r == self.stack_access_faults(a),
    {
        proof {
            lemma_page_index(self.region, a);
        }
        let aligned: usize = align_down_4k(a);
        let idx: usize = (aligned - self.region.base) / PAGE_SIZE_4K;
        !self.aspace.table.is_mapped(idx)
    }
}

/// The state change that handling an in-range fault at `a` performs:
/// everything is kept but the one table slot of `a`'s page, which now
/// holds that page's pool frame.
pub open spec fn fault_handled(pre: UserTask, post: UserTask, a: usize) -> bool {
    &&& post.region == pre.region
    &&& post.pool@ == pre.pool@
    &&& post.ctx == pre.ctx
    &&& post.aspace.root == pre.aspace.root
    &&& post.aspace.table@ == pre.aspace.table@.update(
        pre.region.page_index_of(a),
        Some(pre.pool@[pre.region.page_index_of(a)]),
    )
}

impl UserTask {
    /// Demand-paging fault handler: either installs exactly one new
    /// translation entry for the page of `vaddr`, or reports the fault
    /// as out of range and changes nothing.
    ///
    /// An in-range fault can only arrive for a page that is still
    /// unmapped — a mapped page does not trap — so installing over a
    /// live entry is excluded up front rather than handled.
    pub fn handle_page_fault(&mut self, vaddr: usize) -> (r: FaultOutcome)
        requires
            old(self).wf(),
            old(self).region.contains(vaddr) ==> old(self).stack_access_faults(vaddr),
        ensures
            final(self).wf(),
            final(self).region == old(self).region,
            final(self).pool@ == old(self).pool@,
            final(self).ctx == old(self).ctx,
            final(self).aspace.root == old(self).aspace.root,
            !old(self).region.contains(vaddr) ==> r == FaultOutcome::OutOfRange
                && final(self).aspace.table@ == old(self).aspace.table@,
            old(self).region.contains(vaddr) ==> r == (FaultOutcome::Installed {
                vpage: align_down_4k_spec(vaddr),
                frame: old(self).pool@[old(self).region.page_index_of(vaddr)],
            }) && fault_handled(*old(self), *final(self), vaddr),
            old(self).frames_consistent() ==> final(self).frames_consistent(),
    {
        if !self.region.contains_addr(vaddr) {
            return FaultOutcome::OutOfRange;
        }
        proof {
            lemma_page_index(self.region, vaddr);
        }
        let aligned_va: usize = align_down_4k(vaddr);
        let page_idx: usize = (aligned_va - self.region.base) / PAGE_SIZE_4K;
        let frame: usize = self.pool.frame(page_idx);
        self.aspace.table.map(page_idx, frame);
        FaultOutcome::Installed { vpage: aligned_va, frame }
    }

    /// One round of the dispatch loop: classify why user mode returned
    /// and decide what the kernel does next.  A syscall defers to the
    /// gateway; an in-range fault installs the page and resumes; an
    /// out-of-range fault or any other trap terminates with code -1.
    pub fn handle_trap(&mut self, reason: ReturnReason) -> (d: Directive)
        requires
            old(self).wf(),
            reason matches ReturnReason::PageFault(a, _flags) ==> (old(self).region.contains(a)
                ==> old(self).stack_access_faults(a)),
        ensures
            final(self).wf(),
            final(self).region == old(self).region,
            final(self).pool@ == old(self).pool@,
            final(self).ctx == old(self).ctx,
            final(self).aspace.root == old(self).aspace.root,
            reason is Syscall ==> d == Directive::InvokeSyscall && final(self).aspace.table@
                == old(self).aspace.table@,
            reason matches ReturnReason::Other(_desc) ==> d == Directive::Exit(-1i32)
                && final(self).aspace.table@ == old(self).aspace.table@,
            reason matches ReturnReason::PageFault(a, _flags) ==> (!old(self).region.contains(a)
                ==> d == Directive::Exit(-1i32) && final(self).aspace.table@ == old(
                self,
            ).aspace.table@),
            reason matches ReturnReason::PageFault(a, _flags) ==> (old(self).region.contains(a)
                ==> d == (Directive::MapAndResume {
                vpage: align_down_4k_spec(a),
                frame: old(self).pool@[old(self).region.page_index_of(a)],
            }) && fault_handled(*old(self), *final(self), a)),
            old(self).frames_consistent() ==> final(self).frames_consistent(),
    {
        match reason {
            ReturnReason::Syscall => Directive::InvokeSyscall,
            ReturnReason::PageFault(a, _flags) => {
                match self.handle_page_fault(a) {
                    FaultOutcome::Installed { vpage, frame } => Directive::MapAndResume {
                        vpage,
                        frame,
                    },
                    FaultOutcome::OutOfRange => Directive::Exit(-1),
                }
            },
            ReturnReason::Other(_desc) => Directive::Exit(-1),
        }
    }
}

/// Routes the syscall gateway's answer: no code means re-enter user
/// mode, a code means terminate the task with it.
pub fn syscall_outcome(exit: Option<i32>) -> (d: Directive)
    ensures
        exit is None ==> d == Directive::ResumeUser,
        exit matches Some(code) ==> d == Directive::Exit(code),
{
    match exit {
        None => Directive::ResumeUser,
        Some(code) => Directive::Exit(code),
    }
}

/// Task bootstrap: validates that the pool and the table model carry
/// one frame and one slot per page of `[ustack_vaddr, ustack_top)`,
/// removes every translation entry covering that range, and assembles
/// the task with its entry context and page-table root.  Returns
/// `None` exactly when the range or the sizes are inconsistent.
pub fn spawn_user_task(
    uspace: AddrSpace,
    ustack_top: usize,
    ustack_vaddr: usize,
    stack_pages: FramePool,
    entry: usize,
) -> (r: Option<UserTask>)
    ensures
        r is Some <==> {
            let region = StackRegion { base: ustack_vaddr, top: ustack_top };
            &&& region.wf()
            &&& stack_pages@.len() == region.page_count()
            &&& uspace.table@.len() == region.page_count()
        },
        r matches Some(t) ==> {
            &&& t.wf()
            &&& t.region == (StackRegion { base: ustack_vaddr, top: ustack_top })
            &&& t.pool@ == stack_pages@
            &&& t.aspace.root == uspace.root
            &&& t.ctx == (UserContext { entry, sp: ustack_top, arg0: 0 })
            &&& forall|i: int| 0 <= i < t.region.page_count() ==> !t.aspace.table.maps(i)
            &&& t.frames_consistent()
        },
{
    let region = match StackRegion::new(ustack_vaddr, ustack_top) {
        Some(region) => region,
        None => {
            return None;
        },
    };
    let n_pages: usize = region.count_pages();
    if stack_pages.len() != n_pages {
        return None;
    }
    let AddrSpace { root, mut table } = uspace;
    if table.len() != n_pages {
        return None;
    }

    // Unmap every entry covering the range, whether or not one is
    // present: unmapped is the canonical initial state of the lazily
    // backed stack, however the range was provisioned upstream.
    let mut i: usize = 0;
    while i < n_pages
        invariant
            i <= n_pages,
            table@.len() == n_pages,
            forall|j: int| 0 <= j < i ==> (#[trigger] table@[j]) is None,
        decreases n_pages - i,
    {
        let _was_mapped = table.unmap(i);
        i = i + 1;
    }
    proof {
        assert(forall|j: int| 0 <= j < n_pages ==> !(#[trigger] table.maps(j)));
    }

    let ctx = UserContext { entry, sp: ustack_top, arg0: 0 };
    Some(UserTask { region, pool: stack_pages, aspace: AddrSpace { root, table }, ctx })
}

/// Law: demand mapping is idempotent.  Once a fault at `a` has been
/// handled, no address of the same page faults again, so the dispatch
/// loop is never re-entered for that page.
pub proof fn lemma_mapping_idempotent(pre: UserTask, post: UserTask, a: usize, b: usize)
    requires
        pre.wf(),
        pre.region.contains(a),
        fault_handled(pre, post, a),
        pre.region.contains(b),
        align_down_4k_spec(b) == align_down_4k_spec(a),
    ensures
        !post.stack_access_faults(b),
{
    lemma_page_index(pre.region, a);
    lemma_same_page_same_index(pre.region, a, b);
}

/// Law: index correctness.  For a range of `N` pages backed by `N`
/// frames, handling a fault anywhere inside the page at offset
/// `k * 4096` installs frame `k` of the pool, for every `k` in
/// `[0, N)`.
pub proof fn lemma_index_correctness(pre: UserTask, post: UserTask, k: int, a: usize)
    requires
        pre.wf(),
        0 <= k < pre.region.page_count(),
        pre.region.page_va(k) <= a < pre.region.page_va(k + 1),
        fault_handled(pre, post, a),
    ensures
        post.aspace.table@[k] == Some(pre.pool@[k]),
{
    lemma_index_of_page_offset(pre.region, k, a);
}

/// Law: the pre-unmap pass leaves every page of the range without an
/// entry, so before the first user entry any touch of the stack
/// faults.
pub proof fn lemma_pre_unmap_faults(t: UserTask, a: usize)
    requires
        t.wf(),
        forall|i: int| 0 <= i < t.region.page_count() ==> !t.aspace.table.maps(i),
        t.region.contains(a),
    ensures
        t.stack_access_faults(a),
{
    lemma_page_index(t.region, a);
}

} // verus!
