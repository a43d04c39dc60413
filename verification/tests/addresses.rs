use cofflos::addr::{PhysAddr, VirtAddr, KERNBASE, PGSIZE};

#[test]
fn physical_to_virtual_adds_kernbase() {
    let p = PhysAddr(4 * 1024 * 1024);
    let v = p.to_virt();
    assert_eq!(v.addr(), 4 * 1024 * 1024 + KERNBASE);
    assert_eq!(v.addr(), 0x8040_0000);
}

#[test]
fn conversion_round_trips() {
    let p = PhysAddr(0x0E00_0000);
    assert_eq!(p.to_virt().to_phys(), p);

    let v = VirtAddr(KERNBASE + 123 * PGSIZE);
    assert_eq!(v.to_phys().to_virt(), v);
    assert_eq!(v.to_phys().addr(), 123 * PGSIZE);
}

#[test]
fn zero_physical_maps_to_kernbase() {
    assert_eq!(PhysAddr(0).to_virt().addr(), KERNBASE);
    assert_eq!(VirtAddr(KERNBASE).to_phys().addr(), 0);
}
