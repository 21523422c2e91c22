//! Behavioural tests for the bootstrap and dispatch core, driving the
//! verified decision functions the way the kernel loop would.

use userboot::page::PAGE_SIZE_4K;
use userboot::region::FramePool;
use userboot::region::StackRegion;
use userboot::table::PageTable;
use userboot::task::spawn_user_task;
use userboot::task::syscall_outcome;
use userboot::task::AddrSpace;
use userboot::task::Directive;
use userboot::task::FaultOutcome;
use userboot::task::ReturnReason;
use userboot::task::UserTask;

const ENTRY: usize = 0x40_0000;

/// A 2-page stack over [0x1000, 0x3000), frames P0 = 0x8000, P1 = 0x9000,
/// spawned from a table whose entries start out installed.
fn two_page_task() -> UserTask {
    let table = PageTable::new(vec![Some(0x111000), Some(0x222000)]);
    let pool = FramePool::new(vec![0x8000, 0x9000]);
    let aspace = AddrSpace { root: 7, table };
    spawn_user_task(aspace, 0x3000, 0x1000, pool, ENTRY).expect("consistent setup")
}

#[test]
fn spawn_builds_entry_context() {
    let t = two_page_task();
    assert_eq!(t.ctx.entry, ENTRY);
    assert_eq!(t.ctx.sp, 0x3000);
    assert_eq!(t.ctx.arg0, 0);
    assert_eq!(t.aspace.root, 7);
    assert_eq!(t.region, StackRegion { base: 0x1000, top: 0x3000 });
}

#[test]
fn spawn_unmaps_whole_range() {
    // Pre-unmap invariant: the table held entries for both pages, and
    // after bootstrap no page of the range has one.
    let t = two_page_task();
    assert!(!t.aspace.table.is_mapped(0));
    assert!(!t.aspace.table.is_mapped(1));
    assert!(t.stack_page_unmapped(0x1000));
    assert!(t.stack_page_unmapped(0x2fff));
}

#[test]
fn spawn_rejects_unaligned_base() {
    let table = PageTable::new(vec![None, None]);
    let pool = FramePool::new(vec![0x8000, 0x9000]);
    let aspace = AddrSpace { root: 0, table };
    assert!(spawn_user_task(aspace, 0x3000, 0x1008, pool, ENTRY).is_none());
}

#[test]
fn spawn_rejects_unaligned_top() {
    let table = PageTable::new(vec![None, None]);
    let pool = FramePool::new(vec![0x8000, 0x9000]);
    let aspace = AddrSpace { root: 0, table };
    assert!(spawn_user_task(aspace, 0x2fff, 0x1000, pool, ENTRY).is_none());
}

#[test]
fn spawn_rejects_empty_range() {
    let table = PageTable::new(vec![]);
    let pool = FramePool::new(vec![]);
    let aspace = AddrSpace { root: 0, table };
    assert!(spawn_user_task(aspace, 0x1000, 0x1000, pool, ENTRY).is_none());
}

#[test]
fn spawn_rejects_pool_size_mismatch() {
    let table = PageTable::new(vec![None, None]);
    let pool = FramePool::new(vec![0x8000]);
    let aspace = AddrSpace { root: 0, table };
    assert!(spawn_user_task(aspace, 0x3000, 0x1000, pool, ENTRY).is_none());
}

#[test]
fn spawn_rejects_table_size_mismatch() {
    let table = PageTable::new(vec![None]);
    let pool = FramePool::new(vec![0x8000, 0x9000]);
    let aspace = AddrSpace { root: 0, table };
    assert!(spawn_user_task(aspace, 0x3000, 0x1000, pool, ENTRY).is_none());
}

#[test]
fn scenario_stack_touch_then_exit() {
    // End to end: the payload pushes onto the stack just under the top,
    // the first touch faults, the top-most frame P1 is installed, the
    // re-executed payload then issues the exit syscall with code 0.
    let mut t = two_page_task();
    let touched: usize = 0x3000 - 8;
    assert!(t.stack_page_unmapped(touched));

    let d = t.handle_trap(ReturnReason::PageFault(touched, 0x2));
    assert_eq!(
        d,
        Directive::MapAndResume { vpage: 0x2000, frame: 0x9000 }
    );
    // exactly one mapping was installed, for the touched page
    assert!(t.aspace.table.is_mapped(1));
    assert!(!t.aspace.table.is_mapped(0));
    // the same page does not fault again
    assert!(!t.stack_page_unmapped(touched));
    assert!(!t.stack_page_unmapped(0x2000));

    let d = t.handle_trap(ReturnReason::Syscall);
    assert_eq!(d, Directive::InvokeSyscall);
    // the gateway reports the exit call
    let d = syscall_outcome(Some(0));
    assert_eq!(d, Directive::Exit(0));
}

#[test]
fn scenario_below_range_fault() {
    // Same setup, but the payload touches one page below the range:
    // immediate termination with -1 and zero mapping installs.
    let mut t = two_page_task();
    let below: usize = 0x1000 - PAGE_SIZE_4K + 0xff8;

    let d = t.handle_trap(ReturnReason::PageFault(below, 0x2));
    assert_eq!(d, Directive::Exit(-1));
    assert!(!t.aspace.table.is_mapped(0));
    assert!(!t.aspace.table.is_mapped(1));
}

#[test]
fn scenario_unexpected_trap() {
    // An undefined instruction comes back as an `Other` trap and
    // terminates the task with -1.
    let mut t = two_page_task();
    let d = t.handle_trap(ReturnReason::Other(6));
    assert_eq!(d, Directive::Exit(-1));
    assert!(!t.aspace.table.is_mapped(0));
    assert!(!t.aspace.table.is_mapped(1));
}

#[test]
fn fault_at_or_above_top_terminates() {
    let mut t = two_page_task();
    assert_eq!(
        t.handle_trap(ReturnReason::PageFault(0x3000, 0x2)),
        Directive::Exit(-1)
    );
    assert_eq!(
        t.handle_trap(ReturnReason::PageFault(usize::MAX, 0x2)),
        Directive::Exit(-1)
    );
    assert!(!t.aspace.table.is_mapped(0));
    assert!(!t.aspace.table.is_mapped(1));
}

#[test]
fn fault_handler_aligns_address_down() {
    // An unaligned fault address maps the page boundary below it, not
    // the address itself.
    let mut t = two_page_task();
    match t.handle_page_fault(0x1abc) {
        FaultOutcome::Installed { vpage, frame } => {
            assert_eq!(vpage, 0x1000);
            assert_eq!(frame, 0x8000);
        }
        FaultOutcome::OutOfRange => panic!("in-range fault"),
    }
}

#[test]
fn fault_handler_reports_out_of_range() {
    let mut t = two_page_task();
    assert_eq!(t.handle_page_fault(0xfff), FaultOutcome::OutOfRange);
    assert_eq!(t.handle_page_fault(0x3000), FaultOutcome::OutOfRange);
}

#[test]
fn index_correctness_across_pages() {
    // Four pages backed by four frames: a touch anywhere in page k
    // installs frame k.
    let frames: Vec<usize> = vec![0xa000, 0xb000, 0xc000, 0xd000];
    for k in 0..4usize {
        let table = PageTable::new(vec![None; 4]);
        let pool = FramePool::new(frames.clone());
        let aspace = AddrSpace { root: 1, table };
        let mut t =
            spawn_user_task(aspace, 0x14000, 0x10000, pool, ENTRY).expect("consistent setup");
        let addr: usize = 0x10000 + k * PAGE_SIZE_4K + 0x123;
        match t.handle_page_fault(addr) {
            FaultOutcome::Installed { vpage, frame } => {
                assert_eq!(vpage, 0x10000 + k * PAGE_SIZE_4K);
                assert_eq!(frame, frames[k]);
            }
            FaultOutcome::OutOfRange => panic!("in-range fault"),
        }
    }
}

#[test]
fn idempotent_mapping_same_page() {
    // Once a page is installed, every address of it is backed: the
    // fault path cannot be re-entered for that page.
    let mut t = two_page_task();
    let d = t.handle_trap(ReturnReason::PageFault(0x2004, 0x2));
    assert_eq!(
        d,
        Directive::MapAndResume { vpage: 0x2000, frame: 0x9000 }
    );
    for a in [0x2000usize, 0x2004, 0x2abc, 0x2fff] {
        assert!(!t.stack_page_unmapped(a));
    }
    // the other page still faults on first touch
    assert!(t.stack_page_unmapped(0x1fff));
}

#[test]
fn syscall_outcome_routes_gateway_answer() {
    assert_eq!(syscall_outcome(None), Directive::ResumeUser);
    assert_eq!(syscall_outcome(Some(0)), Directive::Exit(0));
    assert_eq!(syscall_outcome(Some(-9)), Directive::Exit(-9));
}

#[test]
fn region_rejects_bad_bounds() {
    assert!(StackRegion::new(0x1001, 0x3000).is_none());
    assert!(StackRegion::new(0x1000, 0x3004).is_none());
    assert!(StackRegion::new(0x3000, 0x1000).is_none());
    assert!(StackRegion::new(0x1000, 0x3000).is_some());
}
