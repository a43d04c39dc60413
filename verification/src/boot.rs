//! The bootstrap orchestrator: the run-once state machine that sequences
//! allocator phase one, the external virtual-memory, segmentation,
//! interrupt-controller and trap-vector steps, allocator phase two, and the
//! final idle park. Each step is accepted only in its place; a step taken
//! out of order is flagged as a contract violation and changes nothing.

use vstd::prelude::*;
use crate::addr::{KERNBASE, PGSIZE, VirtAddr, page_aligned, page_round_up};
use crate::kalloc::{
    BOOT_WINDOW, PHYSTOP, Phase, FreeFrameAllocator, frame_addrs, frame_count,
};
use crate::pgdir::PageAligner4K;

verus! {

/// How far the boot sequence has progressed.
#[derive(Clone, Copy, PartialEq, Eq, Structural, Debug)]
pub enum BootStage {
    /// Nothing done yet; the allocator is untouched.
    Start,
    /// Phase one seeded the allocator from the boot-mapped window.
    AllocatorPhaseOne,
    /// The full virtual-memory manager installed its own page directory,
    /// retiring the boot page directory.
    PagingInstalled,
    /// Segment descriptors are set up.
    SegmentsReady,
    /// The interrupt controller is initialized.
    InterruptControllerReady,
    /// The trap vector table is installed.
    TrapVectorsReady,
    /// Phase two extended the allocator up to the top of managed memory.
    AllocatorPhaseTwo,
    /// Terminal idle state: boot is complete and execution parks.
    Parked,
}

/// The next piece of work the boot sequence calls for.
#[derive(Clone, Copy, PartialEq, Eq, Structural, Debug)]
pub enum BootAction {
    /// Seed the allocator from the boot-mapped window.
    RunAllocatorPhaseOne,
    /// Build and install the real kernel page tables (external).
    InstallKernelPaging,
    /// Set up segment descriptors (external).
    InitSegments,
    /// Initialize the interrupt controller (external).
    InitInterruptController,
    /// Install the trap vector table (external).
    InstallTrapVectors,
    /// Extend the allocator up to the top of managed memory.
    RunAllocatorPhaseTwo,
    /// Stop making forward progress: boot is done.
    Park,
}

/// Why a boot step was refused.
#[derive(Clone, Copy, PartialEq, Eq, Structural, Debug)]
pub enum BootError {
    /// The step was attempted in the wrong place in the sequence.
    OutOfOrder,
    /// The memory range handed to an allocator phase is not one the current
    /// mappings make reachable.
    RangeNotMapped,
}

/// The allocator phase each stage of the sequence guarantees.
pub open spec fn stage_phase(s: BootStage) -> Phase {
    match s {
        BootStage::Start => Phase::Uninitialized,
        BootStage::AllocatorPhaseOne => Phase::PhaseOneReady,
        BootStage::PagingInstalled => Phase::PhaseOneReady,
        BootStage::SegmentsReady => Phase::PhaseOneReady,
        BootStage::InterruptControllerReady => Phase::PhaseOneReady,
        BootStage::TrapVectorsReady => Phase::PhaseOneReady,
        BootStage::AllocatorPhaseTwo => Phase::PhaseTwoReady,
        BootStage::Parked => Phase::PhaseTwoReady,
    }
}

/// The action each stage calls for next; a parked sequence calls for none.
pub open spec fn stage_action(s: BootStage) -> Option<BootAction> {
    match s {
        BootStage::Start => Some(BootAction::RunAllocatorPhaseOne),
        BootStage::AllocatorPhaseOne => Some(BootAction::InstallKernelPaging),
        BootStage::PagingInstalled => Some(BootAction::InitSegments),
        BootStage::SegmentsReady => Some(BootAction::InitInterruptController),
        BootStage::InterruptControllerReady => Some(BootAction::InstallTrapVectors),
        BootStage::TrapVectorsReady => Some(BootAction::RunAllocatorPhaseTwo),
        BootStage::AllocatorPhaseTwo => Some(BootAction::Park),
        BootStage::Parked => None,
    }
}

/// A virtual range phase one may manage: inside the one superpage window
/// the boot page directory maps.
pub open spec fn phase_one_range_ok(startv: VirtAddr, endv: VirtAddr) -> bool {
    KERNBASE <= startv.0 <= endv.0 <= KERNBASE + BOOT_WINDOW
}

/// A virtual range phase two may manage: above everything already managed
/// and below the top of managed memory, reachable through the permanent
/// mappings.
pub open spec fn phase_two_range_ok(managed_end: u32, startv: VirtAddr, endv: VirtAddr) -> bool {
    managed_end <= startv.0 <= endv.0 <= KERNBASE + PHYSTOP
}

/// The boot sequence: the current stage and the allocator it owns.
pub struct Bootstrap {
    stage: BootStage,
    allocator: FreeFrameAllocator,
}

impl Bootstrap {
    /// The stage reached so far.
    pub closed spec fn stage_spec(&self) -> BootStage {
        self.stage
    }

    /// The allocator as the sequence has built it up.
    pub closed spec fn allocator_spec(&self) -> FreeFrameAllocator {
        self.allocator
    }

    /// The allocator is well formed and its phase matches the stage; before
    /// anything ran, the pool is empty.
    pub open spec fn wf(&self) -> bool {
        &&& self.allocator_spec().wf()
        &&& self.allocator_spec().phase_spec() == stage_phase(self.stage_spec())
        &&& self.stage_spec() == BootStage::Start ==> self.allocator_spec().free_frames().len()
            == 0 && self.allocator_spec().managed_end_spec() == KERNBASE
    }

    /// A fresh boot sequence with an untouched allocator.
    pub fn new() -> (b: Bootstrap)
        ensures
            b.wf(),
            b.stage_spec() == BootStage::Start,
            b.allocator_spec().free_frames().len() == 0,
    {
        Bootstrap { stage: BootStage::Start, allocator: FreeFrameAllocator::new() }
    }

    /// The stage reached so far.
    pub fn stage(&self) -> (r: BootStage)
        ensures
            r == self.stage_spec(),
    {
        self.stage
    }

    /// What must run next, or nothing once parked.
    pub fn next_action(&self) -> (r: Option<BootAction>)
        ensures
            r == stage_action(self.stage_spec()),
    {
        match self.stage {
            BootStage::Start => Some(BootAction::RunAllocatorPhaseOne),
            BootStage::AllocatorPhaseOne => Some(BootAction::InstallKernelPaging),
            BootStage::PagingInstalled => Some(BootAction::InitSegments),
            BootStage::SegmentsReady => Some(BootAction::InitInterruptController),
            BootStage::InterruptControllerReady => Some(BootAction::InstallTrapVectors),
            BootStage::TrapVectorsReady => Some(BootAction::RunAllocatorPhaseTwo),
            BootStage::AllocatorPhaseTwo => Some(BootAction::Park),
            BootStage::Parked => None,
        }
    }

    /// Number of frames currently free in the pool.
    pub fn free_count(&self) -> (r: usize)
        ensures
            r == self.allocator_spec().free_frames().len(),
    {
        self.allocator.free_count()
    }

    /// Step 1: seed the allocator from the boot-mapped window. Accepted
    /// only at the start and only for a range the boot page directory maps.
    pub fn run_allocator_phase_one(&mut self, startv: VirtAddr, endv: VirtAddr) -> (r: Result<
        (),
        BootError,
    >)
        requires
            old(self).wf(),
        ensures
            final(self).wf(),
            r is Ok <==> old(self).stage_spec() == BootStage::Start && phase_one_range_ok(
                startv,
                endv,
            ),
            r is Ok ==> final(self).stage_spec() == BootStage::AllocatorPhaseOne && final(self).allocator_spec().free_frames() == frame_addrs(
                page_round_up(startv.0 as int),
                frame_count(startv.0 as int, endv.0 as int),
            ) && final(self).allocator_spec().managed_end_spec() == endv.0,
            old(self).stage_spec() != BootStage::Start ==> r == Err::<(), BootError>(
                BootError::OutOfOrder,
            ),
            old(self).stage_spec() == BootStage::Start && !phase_one_range_ok(startv, endv)
                ==> r == Err::<(), BootError>(BootError::RangeNotMapped),
            r is Err ==> final(self).stage_spec() == old(self).stage_spec() && final(self).allocator_spec() == old(self).allocator_spec(),
    {
        match self.stage {
            BootStage::Start => {},
            _ => { return Err(BootError::OutOfOrder) },
        }
        if !(KERNBASE <= startv.0 && startv.0 <= endv.0 && endv.0 <= KERNBASE + BOOT_WINDOW) {
            return Err(BootError::RangeNotMapped);
        }
        self.allocator.kinit1(startv, endv);
        self.stage = BootStage::AllocatorPhaseOne;
        proof {
            assert(final(self).allocator_spec().free_frames() =~= frame_addrs(
                page_round_up(startv.0 as int),
                frame_count(startv.0 as int, endv.0 as int),
            ));
        }
        Ok(())
    }

    /// Step 2 acknowledged: the external virtual-memory manager built its
    /// own page tables and installed them, retiring the boot directory. The
    /// alignment witness attests that the directory handed to the paging
    /// hardware sits on a 4096-byte boundary.
    pub fn note_paging_installed(&mut self, dir_base: &PageAligner4K) -> (r: Result<
        (),
        BootError,
    >)
        requires
            old(self).wf(),
            dir_base.wf(),
        ensures
            final(self).wf(),
            r is Ok <==> old(self).stage_spec() == BootStage::AllocatorPhaseOne,
            r is Ok ==> final(self).stage_spec() == BootStage::PagingInstalled,
            r is Err ==> r == Err::<(), BootError>(BootError::OutOfOrder) && final(self).stage_spec() == old(self).stage_spec(),
            final(self).allocator_spec() == old(self).allocator_spec(),
    {
        match self.stage {
            BootStage::AllocatorPhaseOne => {
                self.stage = BootStage::PagingInstalled;
                Ok(())
            },
            _ => Err(BootError::OutOfOrder),
        }
    }

    /// Step 3 acknowledged: segment descriptors are in place.
    pub fn note_segments_ready(&mut self) -> (r: Result<(), BootError>)
        requires
            old(self).wf(),
        ensures
            final(self).wf(),
            r is Ok <==> old(self).stage_spec() == BootStage::PagingInstalled,
            r is Ok ==> final(self).stage_spec() == BootStage::SegmentsReady,
            r is Err ==> r == Err::<(), BootError>(BootError::OutOfOrder) && final(self).stage_spec() == old(self).stage_spec(),
            final(self).allocator_spec() == old(self).allocator_spec(),
    {
        match self.stage {
            BootStage::PagingInstalled => {
                self.stage = BootStage::SegmentsReady;
                Ok(())
            },
            _ => Err(BootError::OutOfOrder),
        }
    }

    /// Step 4 acknowledged: the interrupt controller is initialized.
    pub fn note_interrupt_controller_ready(&mut self) -> (r: Result<(), BootError>)
        requires
            old(self).wf(),
        ensures
            final(self).wf(),
            r is Ok <==> old(self).stage_spec() == BootStage::SegmentsReady,
            r is Ok ==> final(self).stage_spec() == BootStage::InterruptControllerReady,
            r is Err ==> r == Err::<(), BootError>(BootError::OutOfOrder) && final(self).stage_spec() == old(self).stage_spec(),
            final(self).allocator_spec() == old(self).allocator_spec(),
    {
        match self.stage {
            BootStage::SegmentsReady => {
                self.stage = BootStage::InterruptControllerReady;
                Ok(())
            },
            _ => Err(BootError::OutOfOrder),
        }
    }

    /// Step 5 acknowledged: the trap vector table is installed.
    pub fn note_trap_vectors_ready(&mut self) -> (r: Result<(), BootError>)
        requires
            old(self).wf(),
        ensures
            final(self).wf(),
            r is Ok <==> old(self).stage_spec() == BootStage::InterruptControllerReady,
            r is Ok ==> final(self).stage_spec() == BootStage::TrapVectorsReady,
            r is Err ==> r == Err::<(), BootError>(BootError::OutOfOrder) && final(self).stage_spec() == old(self).stage_spec(),
            final(self).allocator_spec() == old(self).allocator_spec(),
    {
        match self.stage {
            BootStage::InterruptControllerReady => {
                self.stage = BootStage::TrapVectorsReady;
                Ok(())
            },
            _ => Err(BootError::OutOfOrder),
        }
    }

    /// Step 6: extend the allocator up to the top of managed memory.
    /// Accepted only after the virtual-memory manager, segmentation,
    /// interrupt controller and trap vectors are all in place: attempting
    /// phase two before the directory switch is flagged as out of order and
    /// leaves the allocator untouched, never silently accepted.
    pub fn run_allocator_phase_two(&mut self, startv: VirtAddr, endv: VirtAddr) -> (r: Result<
        (),
        BootError,
    >)
        requires
            old(self).wf(),
        ensures
            final(self).wf(),
            r is Ok <==> old(self).stage_spec() == BootStage::TrapVectorsReady
                && phase_two_range_ok(old(self).allocator_spec().managed_end_spec(), startv, endv),
            r is Ok ==> final(self).stage_spec() == BootStage::AllocatorPhaseTwo && final(self).allocator_spec().free_frames() == old(self).allocator_spec().free_frames()
                + frame_addrs(
                page_round_up(startv.0 as int),
                frame_count(startv.0 as int, endv.0 as int),
            ) && final(self).allocator_spec().managed_end_spec() == endv.0,
            old(self).stage_spec() != BootStage::TrapVectorsReady ==> r == Err::<(), BootError>(
                BootError::OutOfOrder,
            ),
            old(self).stage_spec() == BootStage::TrapVectorsReady && !phase_two_range_ok(
                old(self).allocator_spec().managed_end_spec(),
                startv,
                endv,
            ) ==> r == Err::<(), BootError>(BootError::RangeNotMapped),
            r is Err ==> final(self).stage_spec() == old(self).stage_spec() && final(self).allocator_spec() == old(self).allocator_spec(),
    {
        match self.stage {
            BootStage::TrapVectorsReady => {},
            _ => { return Err(BootError::OutOfOrder) },
        }
        let bound = self.allocator.managed_end();
        if !(bound <= startv.0 && startv.0 <= endv.0 && endv.0 <= KERNBASE + PHYSTOP) {
            return Err(BootError::RangeNotMapped);
        }
        self.allocator.kinit2(startv, endv);
        self.stage = BootStage::AllocatorPhaseTwo;
        Ok(())
    }

    /// Step 7: park. Boot is complete; the sequence enters its terminal
    /// idle state and calls for no further action.
    pub fn park(&mut self) -> (r: Result<(), BootError>)
        requires
            old(self).wf(),
        ensures
            final(self).wf(),
            r is Ok <==> old(self).stage_spec() == BootStage::AllocatorPhaseTwo,
            r is Ok ==> final(self).stage_spec() == BootStage::Parked && stage_action(
                final(self).stage_spec(),
            ) is None,
            r is Err ==> r == Err::<(), BootError>(BootError::OutOfOrder) && final(self).stage_spec() == old(self).stage_spec(),
            final(self).allocator_spec() == old(self).allocator_spec(),
    {
        match self.stage {
            BootStage::AllocatorPhaseTwo => {
                self.stage = BootStage::Parked;
                Ok(())
            },
            _ => Err(BootError::OutOfOrder),
        }
    }

    /// Hand out one free frame, exactly as the allocator does; external
    /// steps draw their frames through this.
    pub fn alloc_frame(&mut self) -> (r: Option<VirtAddr>)
        requires
            old(self).wf(),
        ensures
            final(self).wf(),
            final(self).stage_spec() == old(self).stage_spec(),
            r is None ==> old(self).allocator_spec().free_frames().len() == 0 && final(self).allocator_spec().free_frames() == old(self).allocator_spec().free_frames(),
            r matches Some(v) ==> old(self).allocator_spec().free_frames().len() > 0 && v.0 == old(
                self,
            ).allocator_spec().free_frames().last() && final(self).allocator_spec().free_frames()
                == old(self).allocator_spec().free_frames().drop_last() && page_aligned(
                v.0 as int,
            ) && KERNBASE <= v.0,
            final(self).allocator_spec().managed_end_spec() == old(
                self,
            ).allocator_spec().managed_end_spec(),
    {
        self.allocator.kalloc()
    }

    /// Return a frame to the pool, exactly as the allocator does.
    pub fn free_frame(&mut self, v: VirtAddr)
        requires
            old(self).wf(),
            page_aligned(v.0 as int),
            KERNBASE <= v.0,
            v.0 + PGSIZE <= old(self).allocator_spec().managed_end_spec(),
            !old(self).allocator_spec().free_frames().contains(v.0),
        ensures
            final(self).wf(),
            final(self).stage_spec() == old(self).stage_spec(),
            final(self).allocator_spec().free_frames() == old(
                self,
            ).allocator_spec().free_frames().push(v.0),
            final(self).allocator_spec().managed_end_spec() == old(
                self,
            ).allocator_spec().managed_end_spec(),
    {
        self.allocator.kfree(v)
    }

    /// Whether a frame address is currently in the free pool.
    pub fn frame_is_free(&self, a: u32) -> (r: bool)
        ensures
            r == self.allocator_spec().free_frames().contains(a),
    {
        self.allocator.contains_frame(a)
    }
}

} // verus!
