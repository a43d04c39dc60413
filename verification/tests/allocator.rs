use cofflos::addr::{VirtAddr, KERNBASE, PGSIZE};
use cofflos::kalloc::{FreeFrameAllocator, Phase, BOOT_WINDOW, PHYSTOP};

fn phase_one_allocator() -> FreeFrameAllocator {
    let mut al = FreeFrameAllocator::new();
    al.kinit1(VirtAddr(KERNBASE), VirtAddr(KERNBASE + BOOT_WINDOW));
    al
}

#[test]
fn phase_one_yields_1024_distinct_aligned_frames_then_exhaustion() {
    let mut al = phase_one_allocator();
    assert_eq!(al.phase(), Phase::PhaseOneReady);
    assert_eq!(al.free_count(), 1024);

    let mut got: Vec<u32> = Vec::new();
    for _ in 0..1024 {
        let f = al.kalloc().expect("pool not yet exhausted");
        assert_eq!(f.0 % PGSIZE, 0);
        assert!(f.0 >= KERNBASE);
        assert!(f.0 + PGSIZE <= KERNBASE + BOOT_WINDOW);
        got.push(f.0);
    }
    assert!(al.kalloc().is_none());
    assert_eq!(al.free_count(), 0);

    for i in 0..got.len() {
        for j in 0..i {
            assert_ne!(got[i], got[j]);
        }
    }
}

#[test]
fn unaligned_start_rounds_up() {
    let mut al = FreeFrameAllocator::new();
    al.kinit1(VirtAddr(KERNBASE + 1), VirtAddr(KERNBASE + 3 * PGSIZE));
    assert_eq!(al.free_count(), 2);
    let f = al.kalloc().expect("two frames present");
    assert_eq!(f.0, KERNBASE + 2 * PGSIZE);
}

#[test]
fn empty_range_yields_no_frames() {
    let mut al = FreeFrameAllocator::new();
    al.kinit1(VirtAddr(KERNBASE), VirtAddr(KERNBASE));
    assert_eq!(al.free_count(), 0);
    assert!(al.kalloc().is_none());
}

#[test]
fn two_phase_total_matches_whole_range_minus_allocated() {
    let mut al = phase_one_allocator();
    let a = al.kalloc().expect("frame");
    let b = al.kalloc().expect("frame");
    let c = al.kalloc().expect("frame");
    assert_ne!(a.0, b.0);
    assert_ne!(b.0, c.0);
    assert_ne!(a.0, c.0);
    assert_eq!(al.free_count(), 1021);

    al.kinit2(VirtAddr(KERNBASE + BOOT_WINDOW), VirtAddr(KERNBASE + PHYSTOP));
    assert_eq!(al.phase(), Phase::PhaseTwoReady);

    let total = (PHYSTOP / PGSIZE) as usize;
    assert_eq!(total, 57344);
    assert_eq!(al.free_count(), total - 3);
}

#[test]
fn alloc_free_alloc_round_trip_keeps_free_set_intact() {
    let mut al = phase_one_allocator();
    let before = al.free_count();

    let f = al.kalloc().expect("frame");
    assert_eq!(al.free_count(), before - 1);
    assert!(!al.contains_frame(f.0));

    al.kfree(f);
    assert_eq!(al.free_count(), before);
    assert!(al.contains_frame(f.0));

    let again = al.kalloc().expect("frame");
    assert_eq!(again.0, f.0);
    assert!(!al.contains_frame(again.0));
    assert_eq!(al.free_count(), before - 1);
}

#[test]
fn freed_frame_is_never_listed_twice() {
    let mut al = phase_one_allocator();
    let f = al.kalloc().expect("frame");
    al.kfree(f);

    let mut seen: u32 = 0;
    while let Some(g) = al.kalloc() {
        if g.0 == f.0 {
            seen += 1;
        }
    }
    assert_eq!(seen, 1);
}
