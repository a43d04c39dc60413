//! Typed physical and virtual addresses and the one sanctioned conversion
//! between them: `virtual = physical + KERNBASE`.

use vstd::prelude::*;

verus! {

/// Virtual address at which the kernel's permanent high-half range begins.
pub const KERNBASE: u32 = 0x8000_0000;

/// Size in bytes of one page frame.
pub const PGSIZE: u32 = 4096;

/// True when `a` lies on a frame boundary.
pub open spec fn page_aligned(a: int) -> bool {
    a % (PGSIZE as int) == 0
}

/// Smallest frame boundary at or above `a`.
pub open spec fn page_round_up(a: int) -> int {
    ((a + PGSIZE - 1) / (PGSIZE as int)) * (PGSIZE as int)
}

/// An address in physical memory, before paging translates anything.
#[derive(Clone, Copy, PartialEq, Eq, Structural, Debug)]
pub struct PhysAddr(pub u32);

/// An address in the kernel's virtual address space.
#[derive(Clone, Copy, PartialEq, Eq, Structural, Debug)]
pub struct VirtAddr(pub u32);

impl PhysAddr {
    /// The raw numeric address.
    pub fn addr(self) -> (r: u32)
        ensures
            r == self.0,
    {
        self.0
    }

    /// Map a physical address into the high half: the only legal
    /// physical-to-virtual conversion.
    pub fn to_virt(self) -> (r: VirtAddr)
        requires
            self.0 < KERNBASE,
        ensures
            r.0 == self.0 + KERNBASE,
    {
        VirtAddr(self.0 + KERNBASE)
    }
}

impl VirtAddr {
    /// The raw numeric address.
    pub fn addr(self) -> (r: u32)
        ensures
            r == self.0,
    {
        self.0
    }

    /// Map a high-half virtual address back to the physical address it
    /// covers: the inverse of `PhysAddr::to_virt`.
    pub fn to_phys(self) -> (r: PhysAddr)
        requires
            self.0 >= KERNBASE,
        ensures
            r.0 == self.0 - KERNBASE,
    {
        PhysAddr(self.0 - KERNBASE)
    }
}

/// The two conversions are mutually inverse: translating a physical address
/// into the high half and back recovers it, and vice versa.
pub proof fn lemma_conversion_round_trip(p: u32, v: u32)
    requires
        p < KERNBASE,
        v >= KERNBASE,
    ensures
        (p + KERNBASE) - KERNBASE == p,
        (v - KERNBASE) + KERNBASE == v,
{
}

/// Rounding up to a frame boundary yields an aligned address no smaller than
/// the input, and moves by less than one full frame.
pub proof fn lemma_page_round_up(a: int)
    requires
        a >= 0,
    ensures
        page_aligned(page_round_up(a)),
        a <= page_round_up(a) < a + PGSIZE,
{
    let p = PGSIZE as int;
    assert(page_round_up(a) == ((a + p - 1) / p) * p);
    assert(((a + p - 1) / p) * p % p == 0 && a <= ((a + p - 1) / p) * p < a + p)
        by (nonlinear_arith)
        requires
            a >= 0,
            p == 4096,
    ;
}

/// Rounding an already aligned address is the identity.
pub proof fn lemma_page_round_up_aligned(a: int)
    requires
        a >= 0,
        page_aligned(a),
    ensures
        page_round_up(a) == a,
{
    let p = PGSIZE as int;
    assert(((a + p - 1) / p) * p == a)
        by (nonlinear_arith)
        requires
            a >= 0,
            p == 4096,
            a % p == 0,
    ;
}

/// Round `a` up to the next frame boundary.
pub fn round_up_to_page(a: u32) -> (r: u32)
    requires
        a + PGSIZE - 1 <= u32::MAX,
    ensures
        r == page_round_up(a as int),
{
    proof {
        lemma_page_round_up(a as int);
    }
    ((a + (PGSIZE - 1)) / PGSIZE) * PGSIZE
}

} // verus!
