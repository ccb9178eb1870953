//! Register blocks and leaf selectors for the two privileged call families.

use vstd::prelude::*;

verus! {

/// Operation sub-selectors for the exit-to-host call family.
pub const TDVMCALL_CPUID: u64 = 0xa;
pub const TDVMCALL_HALT: u64 = 0xc;
pub const TDVMCALL_IO: u64 = 0x1e;
pub const TDVMCALL_RDMSR: u64 = 0x1f;
pub const TDVMCALL_WRMSR: u64 = 0x20;
pub const TDVMCALL_MMIO: u64 = 0x30;
pub const TDVMCALL_MAPGPA: u64 = 0x10001;
pub const TDVMCALL_GETQUOTE: u64 = 0x10002;
pub const TDVMCALL_SETUPEVENTNOTIFY: u64 = 0x10004;

/// Leaf numbers for the monitor-call family.
pub const TDCALL_TDINFO: u64 = 1;
pub const TDCALL_TDEXTENDRTMR: u64 = 2;
pub const TDCALL_TDGETVEINFO: u64 = 3;
pub const TDCALL_TDACCEPTPAGE: u64 = 6;

/// Direction selector for the port-I/O and MMIO emulation leaves.
pub const IO_READ: u64 = 0;
pub const IO_WRITE: u64 = 1;

pub const PAGE_SIZE_4K: u64 = 4 * 1024;
pub const PAGE_SIZE_2M: u64 = 2 * 1024 * 1024;

/// Register block for a monitor call: `rax` carries the leaf number in,
/// and the status word out; the remaining registers carry leaf-specific
/// inputs in and leaf-specific outputs back.
#[derive(Clone, Copy, Debug, PartialEq, Eq)]
pub struct TdcallArgs {
    pub rax: u64,
    pub rcx: u64,
    pub rdx: u64,
    pub r8: u64,
    pub r9: u64,
    pub r10: u64,
}

/// Register block for an exit-to-host call: `r11` carries the operation
/// sub-selector, `r12`..`r15` carry up to four parameters in and the
/// operation's outputs back.
#[derive(Clone, Copy, Debug, PartialEq, Eq)]
pub struct TdVmcallArgs {
    pub r11: u64,
    pub r12: u64,
    pub r13: u64,
    pub r14: u64,
    pub r15: u64,
}

/// One fully assembled exit-to-host call: the register block plus the flag
/// asking the platform to enable interrupts immediately before the call
/// instruction, with no instruction in between. The adjacency matters for
/// halt: the CPU's wake-on-interrupt semantics require the enable and the
/// call to be back to back, or a wakeup can be missed.
#[derive(Clone, Copy, Debug, PartialEq, Eq)]
pub struct VmmCallPlan {
    pub args: TdVmcallArgs,
    pub do_sti: bool,
}

} // verus!
