//! The boot page directory: a fixed top-level paging structure that maps one
//! 4 MiB superpage of physical memory both at identity and at the kernel's
//! permanent high-half window, so instruction fetch stays valid across the
//! switch from unpaged to paged addressing.

use vstd::prelude::*;
use crate::addr::{KERNBASE, PGSIZE, page_aligned};

verus! {

/// Page-directory-entry flag: the entry is present.
pub const PTE_P: u32 = 0x001;

/// Page-directory-entry flag: the mapped memory is writable.
pub const PTE_W: u32 = 0x002;

/// Page-directory-entry flag: the entry maps a 4 MiB superpage directly.
pub const PTE_PS: u32 = 0x080;

/// Bit shift that separates the page-directory index from the rest of a
/// virtual address.
pub const PDXSHIFT: u32 = 22;

/// Number of entries in a page directory.
pub const NPDENTRIES: usize = 1024;

/// The one descriptor the boot directory populates: a present, writable
/// 4 MiB superpage at physical base 0.
pub const BOOT_PDE: u32 = 0x083;

/// A page-directory entry at the design level: the flag set this layer
/// reads and writes, rather than raw descriptor bits. Bit 0 is Present,
/// bit 1 Writable, bit 7 PageSize; the remaining bits are unused here.
#[derive(Clone, Copy, PartialEq, Eq, Structural, Debug)]
pub struct PageDirectoryEntry {
    /// The entry maps something.
    pub present: bool,
    /// The mapped memory may be written.
    pub writable: bool,
    /// The entry maps a 4 MiB superpage directly.
    pub page_size: bool,
}

/// The hardware descriptor bits that encode a flag set. The three flags
/// occupy disjoint bits, so their sum is their union.
pub open spec fn entry_bits(e: PageDirectoryEntry) -> u32 {
    ((if e.present {
        PTE_P as int
    } else {
        0
    }) + (if e.writable {
        PTE_W as int
    } else {
        0
    }) + (if e.page_size {
        PTE_PS as int
    } else {
        0
    })) as u32
}

/// The flag set a hardware descriptor carries, ignoring the bits this
/// layer does not use.
pub open spec fn entry_flags(bits: u32) -> PageDirectoryEntry {
    PageDirectoryEntry {
        present: bits & PTE_P != 0,
        writable: bits & PTE_W != 0,
        page_size: bits & PTE_PS != 0,
    }
}

impl PageDirectoryEntry {
    /// An empty, not-present entry.
    pub fn empty() -> (e: PageDirectoryEntry)
        ensures
            e == (PageDirectoryEntry { present: false, writable: false, page_size: false }),
            entry_bits(e) == 0,
    {
        PageDirectoryEntry { present: false, writable: false, page_size: false }
    }

    /// Encode the flag set as descriptor bits.
    pub fn encode(&self) -> (r: u32)
        ensures
            r == entry_bits(*self),
    {
        let mut r: u32 = 0;
        if self.present {
            r = r + PTE_P;
        }
        if self.writable {
            r = r + PTE_W;
        }
        if self.page_size {
            r = r + PTE_PS;
        }
        r
    }

    /// Read the flag set out of descriptor bits.
    pub fn decode(bits: u32) -> (e: PageDirectoryEntry)
        ensures
            e == entry_flags(bits),
    {
        PageDirectoryEntry {
            present: bits & PTE_P != 0,
            writable: bits & PTE_W != 0,
            page_size: bits & PTE_PS != 0,
        }
    }
}

/// Encoding a flag set and reading it back loses nothing: the three bits
/// this layer uses identify the flag set exactly.
pub proof fn lemma_entry_round_trip(e: PageDirectoryEntry)
    ensures
        entry_flags(entry_bits(e)) == e,
{
    if e.present {
        if e.writable {
            if e.page_size {
                assert(0x83u32 & 0x1u32 != 0 && 0x83u32 & 0x2u32 != 0 && 0x83u32 & 0x80u32 != 0)
                    by (bit_vector);
            } else {
                assert(0x3u32 & 0x1u32 != 0 && 0x3u32 & 0x2u32 != 0 && 0x3u32 & 0x80u32 == 0)
                    by (bit_vector);
            }
        } else {
            if e.page_size {
                assert(0x81u32 & 0x1u32 != 0 && 0x81u32 & 0x2u32 == 0 && 0x81u32 & 0x80u32 != 0)
                    by (bit_vector);
            } else {
                assert(0x1u32 & 0x1u32 != 0 && 0x1u32 & 0x2u32 == 0 && 0x1u32 & 0x80u32 == 0)
                    by (bit_vector);
            }
        }
    } else {
        if e.writable {
            if e.page_size {
                assert(0x82u32 & 0x1u32 == 0 && 0x82u32 & 0x2u32 != 0 && 0x82u32 & 0x80u32 != 0)
                    by (bit_vector);
            } else {
                assert(0x2u32 & 0x1u32 == 0 && 0x2u32 & 0x2u32 != 0 && 0x2u32 & 0x80u32 == 0)
                    by (bit_vector);
            }
        } else {
            if e.page_size {
                assert(0x80u32 & 0x1u32 == 0 && 0x80u32 & 0x2u32 == 0 && 0x80u32 & 0x80u32 != 0)
                    by (bit_vector);
            } else {
                assert(0x0u32 & 0x1u32 == 0 && 0x0u32 & 0x2u32 == 0 && 0x0u32 & 0x80u32 == 0)
                    by (bit_vector);
            }
        }
    }
}

/// The descriptor the boot directory populates is exactly the encoding of
/// present + writable + superpage.
pub proof fn lemma_boot_pde_is_superpage_descriptor()
    ensures
        BOOT_PDE == entry_bits(
            PageDirectoryEntry { present: true, writable: true, page_size: true },
        ),
{
}

/// Contents of the boot page directory when the high-half window sits at
/// slot `kidx`: slots 0 and `kidx` hold the superpage descriptor, every
/// other slot is zero (not present).
pub open spec fn boot_dir(kidx: int) -> Seq<u32> {
    Seq::new(NPDENTRIES as nat, |j: int| if j == 0 || j == kidx { BOOT_PDE } else { 0u32 })
}

/// The boot page directory itself. Constructed once and never mutated; its
/// view is the sequence of 1024 hardware descriptors.
pub struct EntryPgDir {
    entries: Vec<u32>,
}

impl View for EntryPgDir {
    type V = Seq<u32>;

    closed spec fn view(&self) -> Seq<u32> {
        self.entries@
    }
}

impl EntryPgDir {
    /// Build the directory for an arbitrary high-half slot: slot 0 and slot
    /// `kidx` carry the same superpage descriptor, all other slots are empty.
    pub fn new_for_index(kidx: usize) -> (d: EntryPgDir)
        requires
            1 <= kidx < NPDENTRIES,
        ensures
            d@ == boot_dir(kidx as int),
    {
        let mut entries: Vec<u32> = Vec::new();
        let mut i: usize = 0;
        while i < NPDENTRIES
            invariant
                i <= NPDENTRIES,
                entries@.len() == i,
                forall|j: int| 0 <= j < i ==> entries@[j] == 0u32,
            decreases NPDENTRIES - i,
        {
            entries.push(0);
            i = i + 1;
        }
        entries.set(0, BOOT_PDE);
        entries.set(kidx, BOOT_PDE);
        let d = EntryPgDir { entries };
        proof {
            assert(d@ =~= boot_dir(kidx as int));
        }
        d
    }

    /// The directory as the hardware consumes it: the high-half slot is
    /// `KERNBASE >> PDXSHIFT`, and the construction is pinned to that value
    /// so the two can never drift apart.
    pub fn new() -> (d: EntryPgDir)
        ensures
            d@ == boot_dir((KERNBASE >> PDXSHIFT) as int),
            KERNBASE >> PDXSHIFT == 512,
    {
        assert(0x8000_0000u32 >> 22u32 == 512u32) by (bit_vector);
        EntryPgDir::new_for_index(512)
    }

    /// Read one descriptor.
    pub fn entry(&self, j: usize) -> (r: u32)
        requires
            j < self@.len(),
        ensures
            r == self@[j as int],
    {
        self.entries[j]
    }

    /// Number of slots.
    pub fn len(&self) -> (r: usize)
        ensures
            r == self@.len(),
    {
        self.entries.len()
    }
}

/// For any valid high-half slot index, the boot directory holds the same
/// present + writable + superpage descriptor in slot 0 and in that slot,
/// and every one of the other 1022 slots is zero.
pub proof fn lemma_boot_dir_shape(kidx: int)
    requires
        1 <= kidx < NPDENTRIES,
    ensures
        boot_dir(kidx).len() == NPDENTRIES,
        boot_dir(kidx)[0] == (PTE_P | PTE_W | PTE_PS),
        boot_dir(kidx)[kidx] == boot_dir(kidx)[0],
        forall|j: int|
            0 <= j < NPDENTRIES && j != 0 && j != kidx ==> boot_dir(kidx)[j] == 0u32,
{
    assert(0x083u32 == (0x001u32 | 0x002u32 | 0x080u32)) by (bit_vector);
}

/// The same shape stated over the address layout itself: for any
/// (kernbase, pdxshift) pair whose page-directory index lands inside the
/// directory, the constructed contents hold the identical descriptor in
/// slot 0 and in slot `kernbase >> pdxshift`, and every other slot is zero.
pub proof fn lemma_boot_dir_for_layout(kernbase: u32, pdxshift: u32)
    requires
        pdxshift < 32,
        1 <= ((kernbase >> pdxshift) as int),
        ((kernbase >> pdxshift) as int) < (NPDENTRIES as int),
    ensures
        boot_dir((kernbase >> pdxshift) as int).len() == NPDENTRIES,
        boot_dir((kernbase >> pdxshift) as int)[0] == (PTE_P | PTE_W | PTE_PS),
        boot_dir((kernbase >> pdxshift) as int)[(kernbase >> pdxshift) as int] == boot_dir(
            (kernbase >> pdxshift) as int,
        )[0],
        forall|j: int|
            0 <= j < NPDENTRIES && j != 0 && j != (kernbase >> pdxshift) as int ==> boot_dir(
                (kernbase >> pdxshift) as int,
            )[j] == 0u32,
{
    lemma_boot_dir_shape((kernbase >> pdxshift) as int);
}

/// Alignment witness for the paging hardware: a value of this type holds an
/// address that is known to lie on a 4096-byte boundary, so it can serve as
/// the base of a page directory.
pub struct PageAligner4K {
    base: u32,
}

impl PageAligner4K {
    /// The address this witness vouches for.
    pub closed spec fn base_spec(&self) -> u32 {
        self.base
    }

    /// The witness is well formed exactly when its address is page aligned.
    pub open spec fn wf(&self) -> bool {
        page_aligned(self.base_spec() as int)
    }

    /// Admit an address only when it lies on a 4096-byte boundary.
    pub fn new(base: u32) -> (r: Option<PageAligner4K>)
        ensures
            r is Some <==> page_aligned(base as int),
            r matches Some(a) ==> a.base_spec() == base && a.wf(),
    {
        if base % PGSIZE == 0 {
            Some(PageAligner4K { base })
        } else {
            None
        }
    }

    /// The raw base address.
    pub fn base(&self) -> (r: u32)
        ensures
            r == self.base_spec(),
    {
        self.base
    }
}

/// The base address carried by any well-formed alignment witness is
/// divisible by 4096.
pub proof fn lemma_aligned_base_divisible(a: PageAligner4K)
    requires
        a.wf(),
    ensures
        a.base_spec() % 4096 == 0,
{
}

} // verus!
