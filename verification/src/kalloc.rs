//! The physical-frame allocator: a pool of free, page-aligned frame
//! addresses in the kernel's high-half window, filled in two sequential
//! bootstrap phases and drawn from one frame at a time.

use vstd::prelude::*;
use crate::addr::{
    KERNBASE, PGSIZE, VirtAddr, page_aligned, page_round_up, round_up_to_page,
    lemma_page_round_up, lemma_page_round_up_aligned,
};

verus! {

/// Top of the physical memory the kernel is willing to manage.
pub const PHYSTOP: u32 = 0x0E00_0000;

/// Size in bytes of the one superpage window the boot page directory maps;
/// phase one of the allocator must stay inside it.
pub const BOOT_WINDOW: u32 = 0x40_0000;

/// How far the allocator's bootstrap has progressed.
#[derive(Clone, Copy, PartialEq, Eq, Structural, Debug)]
pub enum Phase {
    /// Created before boot; no memory handed over yet.
    Uninitialized,
    /// Phase one filled the pool from the boot-mapped low window.
    PhaseOneReady,
    /// Phase two extended the pool up to the top of managed memory.
    PhaseTwoReady,
}

/// The free frame addresses `base, base + 4096, ...`: `n` consecutive
/// frames starting at `base`.
pub open spec fn frame_addrs(base: int, n: nat) -> Seq<u32> {
    Seq::new(n, |i: int| (base + i * (PGSIZE as int)) as u32)
}

/// How many whole frames fit between `start` (rounded up to a frame
/// boundary) and `end`.
pub open spec fn frame_count(start: int, end: int) -> nat {
    if page_round_up(start) <= end {
        ((end - page_round_up(start)) / (PGSIZE as int)) as nat
    } else {
        0
    }
}

/// The free-frame pool. Holds the addresses of the frames currently free,
/// each page aligned, high half, below the managed top, and never listed
/// twice.
pub struct FreeFrameAllocator {
    frames: Vec<u32>,
    phase: Phase,
    managed_end: u32,
}

impl FreeFrameAllocator {
    /// The addresses currently in the pool, oldest first.
    pub closed spec fn free_frames(&self) -> Seq<u32> {
        self.frames@
    }

    /// The bootstrap phase reached so far.
    pub closed spec fn phase_spec(&self) -> Phase {
        self.phase
    }

    /// One past the highest address handed to the allocator so far.
    pub closed spec fn managed_end_spec(&self) -> u32 {
        self.managed_end
    }

    /// Every pool entry is a page-aligned high-half frame below the managed
    /// top, and no frame is listed twice.
    pub open spec fn wf(&self) -> bool {
        &&& self.free_frames().no_duplicates()
        &&& forall|i: int|
            0 <= i < self.free_frames().len() ==> page_aligned(
                #[trigger] self.free_frames()[i] as int,
            ) && KERNBASE <= self.free_frames()[i] && self.free_frames()[i] + PGSIZE
                <= self.managed_end_spec()
        &&& KERNBASE <= self.managed_end_spec() <= KERNBASE + PHYSTOP
    }

    /// An empty, uninitialized pool, as it exists before boot touches it.
    pub fn new() -> (al: FreeFrameAllocator)
        ensures
            al.wf(),
            al.phase_spec() == Phase::Uninitialized,
            al.free_frames() == Seq::<u32>::empty(),
            al.managed_end_spec() == KERNBASE,
    {
        FreeFrameAllocator { frames: Vec::new(), phase: Phase::Uninitialized, managed_end: KERNBASE }
    }

    /// Number of frames currently free.
    pub fn free_count(&self) -> (r: usize)
        ensures
            r == self.free_frames().len(),
    {
        self.frames.len()
    }

    /// The bootstrap phase reached so far.
    pub fn phase(&self) -> (r: Phase)
        ensures
            r == self.phase_spec(),
    {
        self.phase
    }

    /// One past the highest address handed to the allocator so far.
    pub fn managed_end(&self) -> (r: u32)
        ensures
            r == self.managed_end_spec(),
    {
        self.managed_end
    }

    /// Add every whole frame of `[start, end)` to the pool, in ascending
    /// address order.
    fn free_range(&mut self, start: u32, end: u32)
        requires
            old(self).wf(),
            old(self).managed_end_spec() <= start <= end,
            end <= KERNBASE + PHYSTOP,
        ensures
            final(self).wf(),
            final(self).free_frames() == old(self).free_frames() + frame_addrs(
                page_round_up(start as int),
                frame_count(start as int, end as int),
            ),
            final(self).phase_spec() == old(self).phase_spec(),
            final(self).managed_end_spec() == end,
    {
        proof {
            lemma_page_round_up(start as int);
        }
        let ghost orig = self.frames@;
        let ghost rstart = page_round_up(start as int);
        let ghost total = frame_count(start as int, end as int);
        let mut p = round_up_to_page(start);
        let ghost mut k: int = 0;
        proof {
            assert(frame_addrs(rstart, 0) =~= Seq::<u32>::empty());
            assert(self.frames@ =~= orig + frame_addrs(rstart, 0));
        }
        while p <= end - PGSIZE
            invariant
                0 <= k,
                p == rstart + k * (PGSIZE as int),
                rstart == page_round_up(start as int),
                page_aligned(rstart),
                start <= rstart < start + PGSIZE,
                total == frame_count(start as int, end as int),
                KERNBASE <= start <= end <= KERNBASE + PHYSTOP,
                page_aligned(p as int),
                k <= total,
                self.frames@ == orig + frame_addrs(rstart, k as nat),
                orig.no_duplicates(),
                forall|i: int|
                    0 <= i < self.frames@.len() ==> page_aligned(
                        #[trigger] self.frames@[i] as int,
                    ) && KERNBASE <= self.frames@[i] && self.frames@[i] < p
                        && self.frames@[i] + PGSIZE <= end,
                self.frames@.no_duplicates(),
                self.phase == old(self).phase_spec(),
                self.managed_end == old(self).managed_end_spec(),
            decreases end - p,
        {
            let ghost pre = self.frames@;
            self.frames.push(p);
            proof {
                assert(pre.push(p).no_duplicates()) by {
                    assert(forall|i: int| 0 <= i < pre.len() ==> #[trigger] pre[i] != p);
                }
                assert(k + 1 <= (end - rstart) / (PGSIZE as int)) by (nonlinear_arith)
                    requires
                        (k + 1) * (PGSIZE as int) <= end - rstart,
                        0 <= k,
                        end - rstart >= 0,
                ;
                assert(frame_addrs(rstart, (k + 1) as nat) =~= frame_addrs(rstart, k as nat).push(
                    ((rstart + k * (PGSIZE as int)) as u32),
                ));
                k = k + 1;
                assert((rstart + k * (PGSIZE as int)) % (PGSIZE as int) == 0) by (nonlinear_arith)
                    requires
                        rstart % (PGSIZE as int) == 0,
                        0 <= k,
                ;
            }
            p = p + PGSIZE;
        }
        proof {
            if rstart <= end {
                assert(total == (end - rstart) / (PGSIZE as int));
                if k < total {
                    assert(total * (PGSIZE as int) <= end - rstart) by (nonlinear_arith)
                        requires
                            total == (end - rstart) / (PGSIZE as int),
                            end - rstart >= 0,
                    ;
                    assert((k + 1) * (PGSIZE as int) <= total * (PGSIZE as int))
                        by (nonlinear_arith)
                        requires
                            k + 1 <= total,
                    ;
                    assert(false);
                }
            } else {
                assert(total == 0);
            }
            assert(k == total);
        }
        self.managed_end = end;
    }

    /// Allocator phase one: seed the pool from a window that the boot page
    /// directory already maps, so frames exist before the full
    /// virtual-memory manager is built. Moves the allocator from
    /// `Uninitialized` to `PhaseOneReady` and adds every whole frame of
    /// `[startv, endv)`.
    pub fn kinit1(&mut self, startv: VirtAddr, endv: VirtAddr)
        requires
            old(self).wf(),
            old(self).phase_spec() == Phase::Uninitialized,
            old(self).managed_end_spec() <= startv.0 <= endv.0,
            endv.0 <= KERNBASE + BOOT_WINDOW,
        ensures
            final(self).wf(),
            final(self).phase_spec() == Phase::PhaseOneReady,
            final(self).free_frames() == old(self).free_frames() + frame_addrs(
                page_round_up(startv.0 as int),
                frame_count(startv.0 as int, endv.0 as int),
            ),
            final(self).managed_end_spec() == endv.0,
    {
        self.free_range(startv.0, endv.0);
        self.phase = Phase::PhaseOneReady;
    }

    /// Allocator phase two: once the full virtual-memory manager has made
    /// all of physical memory up to `PHYSTOP` reachable, extend the pool
    /// over the remaining range. Moves the allocator from `PhaseOneReady`
    /// to `PhaseTwoReady`.
    pub fn kinit2(&mut self, startv: VirtAddr, endv: VirtAddr)
        requires
            old(self).wf(),
            old(self).phase_spec() == Phase::PhaseOneReady,
            old(self).managed_end_spec() <= startv.0 <= endv.0,
            endv.0 <= KERNBASE + PHYSTOP,
        ensures
            final(self).wf(),
            final(self).phase_spec() == Phase::PhaseTwoReady,
            final(self).free_frames() == old(self).free_frames() + frame_addrs(
                page_round_up(startv.0 as int),
                frame_count(startv.0 as int, endv.0 as int),
            ),
            final(self).managed_end_spec() == endv.0,
    {
        self.free_range(startv.0, endv.0);
        self.phase = Phase::PhaseTwoReady;
    }

    /// Hand out one free frame, or report exhaustion. The frame returned is
    /// removed from the pool, so it can never be handed to a second owner
    /// while its first owner holds it.
    pub fn kalloc(&mut self) -> (r: Option<VirtAddr>)
        requires
            old(self).wf(),
        ensures
            final(self).wf(),
            final(self).phase_spec() == old(self).phase_spec(),
            final(self).managed_end_spec() == old(self).managed_end_spec(),
            r is None ==> old(self).free_frames().len() == 0 && final(self).free_frames() == old(
                self,
            ).free_frames(),
            r matches Some(v) ==> old(self).free_frames().len() > 0 && v.0 == old(
                self,
            ).free_frames().last() && final(self).free_frames() == old(
                self,
            ).free_frames().drop_last() && page_aligned(v.0 as int) && KERNBASE <= v.0 && v.0
                + PGSIZE <= old(self).managed_end_spec(),
    {
        match self.frames.pop() {
            Some(a) => Some(VirtAddr(a)),
            None => None,
        }
    }

    /// Return a frame to the pool. The caller must own the frame: it must
    /// be a frame of the managed range and must not already be free, so the
    /// pool never lists a frame twice.
    pub fn kfree(&mut self, v: VirtAddr)
        requires
            old(self).wf(),
            page_aligned(v.0 as int),
            KERNBASE <= v.0,
            v.0 + PGSIZE <= old(self).managed_end_spec(),
            !old(self).free_frames().contains(v.0),
        ensures
            final(self).wf(),
            final(self).phase_spec() == old(self).phase_spec(),
            final(self).managed_end_spec() == old(self).managed_end_spec(),
            final(self).free_frames() == old(self).free_frames().push(v.0),
    {
        proof {
            let s = self.frames@;
            assert(s.push(v.0).no_duplicates()) by {
                assert(forall|i: int| 0 <= i < s.len() ==> #[trigger] s[i] != v.0);
            }
        }
        self.frames.push(v.0);
    }

    /// Whether `a` is currently in the free pool.
    pub fn contains_frame(&self, a: u32) -> (r: bool)
        ensures
            r == self.free_frames().contains(a),
    {
        let mut i: usize = 0;
        while i < self.frames.len()
            invariant
                i <= self.frames@.len(),
                forall|j: int| 0 <= j < i ==> self.frames@[j] != a,
            decreases self.frames@.len() - i,
        {
            if self.frames[i] == a {
                return true;
            }
            i = i + 1;
        }
        false
    }
}

/// A frame just handed out is no longer in the free set: until it is
/// returned, no second allocation can receive it.
pub proof fn lemma_allocated_frame_not_free(s: Seq<u32>)
    requires
        s.no_duplicates(),
        s.len() > 0,
    ensures
        !s.drop_last().contains(s.last()),
{
    assert forall|i: int| 0 <= i < s.drop_last().len() implies #[trigger] s.drop_last()[i]
        != s.last() by {
        assert(s.drop_last()[i] == s[i]);
    }
}

/// Returning a frame to an idle pool leaves the free set intact: the freed
/// frame is exactly the next one handed out, and taking it back restores
/// the pool to what it was.
pub proof fn lemma_freed_frame_reallocatable(s: Seq<u32>, f: u32)
    requires
        !s.contains(f),
    ensures
        s.push(f).len() > 0,
        s.push(f).last() == f,
        s.push(f).drop_last() == s,
        s.push(f).contains(f),
{
    assert(s.push(f).drop_last() =~= s);
    assert(s.push(f)[s.len() as int] == f);
}

/// The frames of a contiguous range are pairwise distinct and page aligned
/// when the range starts aligned: filling the pool from a fresh range never
/// introduces a duplicate.
pub proof fn lemma_frame_addrs_distinct(base: int, n: nat)
    requires
        0 <= base,
        page_aligned(base),
        base + n * (PGSIZE as int) <= u32::MAX + 1,
    ensures
        frame_addrs(base, n).no_duplicates(),
        forall|i: int| 0 <= i < n ==> page_aligned(#[trigger] frame_addrs(base, n)[i] as int),
{
    assert forall|i: int| 0 <= i < n implies page_aligned(
        #[trigger] frame_addrs(base, n)[i] as int,
    ) by {
        assert((base + i * (PGSIZE as int)) % (PGSIZE as int) == 0) by (nonlinear_arith)
            requires
                base % (PGSIZE as int) == 0,
                0 <= i,
        ;
        assert((i + 1) * (PGSIZE as int) <= n * (PGSIZE as int)) by (nonlinear_arith)
            requires
                i + 1 <= n,
        ;
    }
    assert forall|i: int, j: int|
        0 <= i < n && 0 <= j < n && i != j implies frame_addrs(base, n)[i] != frame_addrs(
        base,
        n,
    )[j] by {
        assert((i + 1) * (PGSIZE as int) <= n * (PGSIZE as int)) by (nonlinear_arith)
            requires
                i + 1 <= n,
        ;
        assert((j + 1) * (PGSIZE as int) <= n * (PGSIZE as int)) by (nonlinear_arith)
            requires
                j + 1 <= n,
        ;
    }
}

/// Bootstrapping over one whole boot window yields exactly 1024 frames:
/// the window is 4 MiB and each frame is 4 KiB.
pub proof fn lemma_phase_one_window_count(start: int)
    requires
        0 <= start,
        page_aligned(start),
    ensures
        frame_count(start, start + BOOT_WINDOW) == 1024,
{
    lemma_page_round_up_aligned(start);
    assert((BOOT_WINDOW as int) / (PGSIZE as int) == 1024) by (nonlinear_arith);
}

/// The two bootstrap phases together cover the whole managed range: the
/// frames contributed by phase one over `[start, mid)` and by phase two
/// over `[mid, top)` add up to the frame count of `[start, top)`. With the
/// frames allocated between the phases subtracted from the pool one by one,
/// the pool after phase two holds exactly the whole range's frames less
/// those still allocated.
pub proof fn lemma_two_phase_total(start: int, mid: int, top: int)
    requires
        0 <= start <= mid <= top,
        page_aligned(start),
        page_aligned(mid),
    ensures
        frame_count(start, mid) + frame_count(mid, top) == frame_count(start, top),
{
    lemma_page_round_up_aligned(start);
    lemma_page_round_up_aligned(mid);
    let d = PGSIZE as int;
    assert((mid - start) % d == 0) by (nonlinear_arith)
        requires
            start % d == 0,
            mid % d == 0,
            d == 4096,
    ;
    assert((mid - start) / d + (top - mid) / d == (top - start) / d) by (nonlinear_arith)
        requires
            (mid - start) % d == 0,
            0 <= start <= mid <= top,
            d == 4096,
    ;
}

} // verus!
