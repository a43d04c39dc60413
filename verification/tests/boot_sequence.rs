use cofflos::addr::{VirtAddr, KERNBASE, PGSIZE};
use cofflos::boot::{BootAction, BootError, BootStage, Bootstrap};
use cofflos::kalloc::{BOOT_WINDOW, PHYSTOP};
use cofflos::pgdir::PageAligner4K;

fn dir_base() -> PageAligner4K {
    PageAligner4K::new(0x0010_0000).expect("aligned directory base")
}

#[test]
fn ordered_sequence_runs_to_park() {
    let mut b = Bootstrap::new();
    assert_eq!(b.stage(), BootStage::Start);
    assert_eq!(b.next_action(), Some(BootAction::RunAllocatorPhaseOne));

    b.run_allocator_phase_one(VirtAddr(KERNBASE), VirtAddr(KERNBASE + BOOT_WINDOW))
        .expect("phase one in order");
    assert_eq!(b.stage(), BootStage::AllocatorPhaseOne);
    assert_eq!(b.free_count(), 1024);
    assert_eq!(b.next_action(), Some(BootAction::InstallKernelPaging));

    b.note_paging_installed(&dir_base()).expect("paging in order");
    assert_eq!(b.next_action(), Some(BootAction::InitSegments));

    b.note_segments_ready().expect("segments in order");
    assert_eq!(b.next_action(), Some(BootAction::InitInterruptController));

    b.note_interrupt_controller_ready().expect("controller in order");
    assert_eq!(b.next_action(), Some(BootAction::InstallTrapVectors));

    b.note_trap_vectors_ready().expect("vectors in order");
    assert_eq!(b.next_action(), Some(BootAction::RunAllocatorPhaseTwo));

    b.run_allocator_phase_two(VirtAddr(KERNBASE + BOOT_WINDOW), VirtAddr(KERNBASE + PHYSTOP))
        .expect("phase two in order");
    assert_eq!(b.stage(), BootStage::AllocatorPhaseTwo);
    assert_eq!(b.free_count(), (PHYSTOP / PGSIZE) as usize);
    assert_eq!(b.next_action(), Some(BootAction::Park));

    b.park().expect("park in order");
    assert_eq!(b.stage(), BootStage::Parked);
    assert_eq!(b.next_action(), None);
}

#[test]
fn phase_two_before_paging_is_out_of_order() {
    let mut b = Bootstrap::new();
    let r = b.run_allocator_phase_two(VirtAddr(KERNBASE), VirtAddr(KERNBASE + PHYSTOP));
    assert_eq!(r, Err(BootError::OutOfOrder));
    assert_eq!(b.stage(), BootStage::Start);

    b.run_allocator_phase_one(VirtAddr(KERNBASE), VirtAddr(KERNBASE + BOOT_WINDOW))
        .expect("phase one in order");
    let r = b.run_allocator_phase_two(VirtAddr(KERNBASE + BOOT_WINDOW), VirtAddr(KERNBASE + PHYSTOP));
    assert_eq!(r, Err(BootError::OutOfOrder));
    assert_eq!(b.stage(), BootStage::AllocatorPhaseOne);
    assert_eq!(b.free_count(), 1024);
}

#[test]
fn every_acknowledgement_out_of_order_is_refused() {
    let mut b = Bootstrap::new();
    assert_eq!(b.note_paging_installed(&dir_base()), Err(BootError::OutOfOrder));
    assert_eq!(b.note_segments_ready(), Err(BootError::OutOfOrder));
    assert_eq!(b.note_interrupt_controller_ready(), Err(BootError::OutOfOrder));
    assert_eq!(b.note_trap_vectors_ready(), Err(BootError::OutOfOrder));
    assert_eq!(b.park(), Err(BootError::OutOfOrder));
    assert_eq!(b.stage(), BootStage::Start);
}

#[test]
fn phase_one_twice_is_out_of_order() {
    let mut b = Bootstrap::new();
    b.run_allocator_phase_one(VirtAddr(KERNBASE), VirtAddr(KERNBASE + BOOT_WINDOW))
        .expect("phase one in order");
    let r = b.run_allocator_phase_one(VirtAddr(KERNBASE), VirtAddr(KERNBASE + BOOT_WINDOW));
    assert_eq!(r, Err(BootError::OutOfOrder));
}

#[test]
fn phase_one_outside_boot_window_is_refused() {
    let mut b = Bootstrap::new();
    let r = b.run_allocator_phase_one(
        VirtAddr(KERNBASE),
        VirtAddr(KERNBASE + BOOT_WINDOW + PGSIZE),
    );
    assert_eq!(r, Err(BootError::RangeNotMapped));
    assert_eq!(b.stage(), BootStage::Start);

    let r = b.run_allocator_phase_one(VirtAddr(KERNBASE - PGSIZE), VirtAddr(KERNBASE));
    assert_eq!(r, Err(BootError::RangeNotMapped));
}

#[test]
fn phase_two_with_bad_range_is_refused() {
    let mut b = Bootstrap::new();
    b.run_allocator_phase_one(VirtAddr(KERNBASE), VirtAddr(KERNBASE + BOOT_WINDOW))
        .expect("phase one in order");
    b.note_paging_installed(&dir_base()).expect("paging in order");
    b.note_segments_ready().expect("segments in order");
    b.note_interrupt_controller_ready().expect("controller in order");
    b.note_trap_vectors_ready().expect("vectors in order");

    let r = b.run_allocator_phase_two(VirtAddr(KERNBASE), VirtAddr(KERNBASE + PHYSTOP));
    assert_eq!(r, Err(BootError::RangeNotMapped));
    let r = b.run_allocator_phase_two(
        VirtAddr(KERNBASE + BOOT_WINDOW),
        VirtAddr(KERNBASE + PHYSTOP + PGSIZE),
    );
    assert_eq!(r, Err(BootError::RangeNotMapped));
    assert_eq!(b.free_count(), 1024);

    b.run_allocator_phase_two(VirtAddr(KERNBASE + BOOT_WINDOW), VirtAddr(KERNBASE + PHYSTOP))
        .expect("good range accepted");
}

#[test]
fn frames_flow_through_the_sequence() {
    let mut b = Bootstrap::new();
    assert!(b.alloc_frame().is_none());

    b.run_allocator_phase_one(VirtAddr(KERNBASE), VirtAddr(KERNBASE + BOOT_WINDOW))
        .expect("phase one in order");
    let f = b.alloc_frame().expect("frame for page tables");
    assert_eq!(f.0 % PGSIZE, 0);
    assert!(!b.frame_is_free(f.0));
    b.free_frame(f);
    assert!(b.frame_is_free(f.0));
    assert_eq!(b.free_count(), 1024);
}
