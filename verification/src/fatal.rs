//! The fatal handler: on any unrecoverable condition this layer halts the
//! processor for good. There is no caller to report to and no state to roll
//! back, so the halt is permanent; the orchestrator's idle park is the same
//! terminal condition reached through success instead of failure.

use vstd::prelude::*;

verus! {

/// The one boot processor, as this layer sees it: whether it has been
/// halted, and how many instructions it has retired.
#[derive(Clone, Copy, PartialEq, Eq, Structural, Debug)]
pub struct Processor {
    /// Halted processors execute nothing and never resume.
    pub halted: bool,
    /// Instructions retired so far; a halted processor retires no more.
    pub retired: u64,
}

/// One processor cycle: a running processor retires an instruction, a
/// halted one does nothing at all.
pub open spec fn cycle(p: Processor) -> Processor {
    if p.halted || p.retired == u64::MAX {
        p
    } else {
        Processor { halted: false, retired: (p.retired + 1) as u64 }
    }
}

/// The processor after `n` further cycles.
pub open spec fn run(p: Processor, n: nat) -> Processor
    decreases n,
{
    if n == 0 {
        p
    } else {
        run(cycle(p), (n - 1) as nat)
    }
}

impl Processor {
    /// A processor as the boot loader hands it over: running, at cycle
    /// zero.
    pub fn new() -> (p: Processor)
        ensures
            !p.halted,
            p.retired == 0,
    {
        Processor { halted: false, retired: 0 }
    }

    /// Retire one instruction if the processor is running; report whether
    /// any progress was made.
    pub fn step(&mut self) -> (progressed: bool)
        requires
            old(self).retired < u64::MAX,
        ensures
            final(self).halted == old(self).halted,
            progressed == !old(self).halted,
            *final(self) == cycle(*old(self)),
    {
        if self.halted {
            false
        } else {
            self.retired = self.retired + 1;
            true
        }
    }

    /// The fatal handler: the diagnostic has been emitted and nothing above
    /// this layer can take the fault, so halt the processor permanently.
    /// There is no unwinding, no return path and no recovery.
    pub fn fatal_halt(&mut self)
        ensures
            final(self).halted,
            final(self).retired == old(self).retired,
    {
        self.halted = true;
    }
}

/// A halted processor stays halted and executes no further instruction,
/// however many cycles pass: triggering the fatal handler is terminal.
pub proof fn lemma_halt_is_terminal(p: Processor, n: nat)
    requires
        p.halted,
    ensures
        run(p, n) == p,
    decreases n,
{
    if n > 0 {
        assert(cycle(p) == p);
        lemma_halt_is_terminal(p, (n - 1) as nat);
    }
}

} // verus!
