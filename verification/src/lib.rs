//! Early-boot memory bring-up for a small x86 kernel: typed physical and
//! virtual addresses, the compile-time boot page directory, a two-phase
//! physical-frame allocator, the bootstrap orchestrator that sequences them,
//! and the fatal-halt path.

pub mod addr;
pub mod boot;
pub mod fatal;
pub mod kalloc;
pub mod pgdir;
