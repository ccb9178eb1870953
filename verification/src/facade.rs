//! One typed operation per service leaf.
//!
//! Each operation here assembles the register block for its leaf, with every
//! register pinned by its contract, and a decoder turns the status word and
//! output registers the platform hands back into the operation's typed
//! result. The operations whose callers have no error channel — port I/O,
//! MMIO and CPUID emulation — keep their halt-on-failure policy in the
//! platform runner: the runner issues a halt call instead of propagating the
//! failed status.

use vstd::prelude::*;

use crate::mask::spec_mapgpa_operand;
use crate::regs::{
    TdVmcallArgs, TdcallArgs, VmmCallPlan, IO_READ, IO_WRITE, TDCALL_TDACCEPTPAGE,
    TDCALL_TDEXTENDRTMR, TDCALL_TDGETVEINFO, TDCALL_TDINFO, TDVMCALL_CPUID, TDVMCALL_GETQUOTE, TDVMCALL_HALT, TDVMCALL_IO, TDVMCALL_MAPGPA,
    TDVMCALL_MMIO, TDVMCALL_RDMSR, TDVMCALL_SETUPEVENTNOTIFY, TDVMCALL_WRMSR,
};
use crate::status::{
    spec_tdcall_error, spec_tdvmcall_error, tdcall_error_from_status, tdvmcall_error_from_status,
    TdCallError, TdVmcallError, TDCALL_STATUS_SUCCESS, TDVMCALL_STATUS_SUCCESS,
};

verus! {

/// A measurement digest extended into a runtime measurement register.
/// The platform copy handed to the hardware must sit on a 64-byte boundary;
/// this value type carries the 48 digest bytes themselves.
pub struct TdxDigest {
    pub data: [u8; 48],
}

/// Guest execution-environment snapshot returned by the guest-info leaf.
#[derive(Clone, Copy, Debug, PartialEq, Eq)]
pub struct TdInfo {
    pub gpaw: u64,
    pub attributes: u64,
    pub max_vcpus: u32,
    pub num_vcpus: u32,
    pub rsvd: [u64; 3],
}

/// Snapshot of the most recent virtualization-exception record.
#[derive(Clone, Copy, Debug, PartialEq, Eq)]
pub struct TdVeInfo {
    pub exit_reason: u32,
    pub rsvd: u32,
    pub exit_qualification: u64,
    pub guest_la: u64,
    pub guest_pa: u64,
    pub exit_instruction_length: u32,
    pub exit_instruction_info: u32,
    pub rsvd1: u64,
}

/// The four registers of one emulated CPUID leaf/subleaf.
#[derive(Clone, Copy, Debug, PartialEq, Eq)]
pub struct CpuIdInfo {
    pub eax: u32,
    pub ebx: u32,
    pub ecx: u32,
    pub edx: u32,
}

/// Builds the halt request. The current interrupt-enable state is read from
/// the CPU flags by the platform and passed in; bit 9 clear means interrupts
/// are blocked, and the host is told so.
pub fn tdvmcall_halt(rflags: u64) -> (p: VmmCallPlan)
    ensures
        p.args.r11 == TDVMCALL_HALT,
        p.args.r12 == (if rflags & 0x200 == 0 { 1u64 } else { 0u64 }),
        p.args.r13 == 0 && p.args.r14 == 0 && p.args.r15 == 0,
        !p.do_sti,
{
    let interrupt_blocked: u64 = if rflags & 0x200 == 0 { 1 } else { 0 };
    VmmCallPlan {
        args: TdVmcallArgs { r11: TDVMCALL_HALT, r12: interrupt_blocked, r13: 0, r14: 0, r15: 0 },
        do_sti: false,
    }
}

/// Builds the safe-halt request: halt with interrupts reported enabled, and
/// the platform asked to enable interrupts immediately before the call
/// instruction so the two are adjacent.
pub fn tdvmcall_sti_halt() -> (p: VmmCallPlan)
    ensures
        p.args.r11 == TDVMCALL_HALT,
        p.args.r12 == 0 && p.args.r13 == 0 && p.args.r14 == 0 && p.args.r15 == 0,
        p.do_sti,
{
    VmmCallPlan {
        args: TdVmcallArgs { r11: TDVMCALL_HALT, r12: 0, r13: 0, r14: 0, r15: 0 },
        do_sti: true,
    }
}

/// The register block of one emulated port-I/O access: access size in bytes,
/// direction, port, and the value for a write.
pub open spec fn spec_io_args(size: u64, direction: u64, port: u16, value: u64) -> TdVmcallArgs {
    TdVmcallArgs { r11: TDVMCALL_IO, r12: size, r13: direction, r14: port as u64, r15: value }
}

/// Builds a one-byte port read request.
pub fn tdvmcall_io_read_8(port: u16) -> (p: VmmCallPlan)
    ensures
        p.args == spec_io_args(1, IO_READ, port, 0),
        !p.do_sti,
{
    VmmCallPlan {
        args: TdVmcallArgs { r11: TDVMCALL_IO, r12: 1, r13: IO_READ, r14: port as u64, r15: 0 },
        do_sti: false,
    }
}

/// Builds a two-byte port read request.
pub fn tdvmcall_io_read_16(port: u16) -> (p: VmmCallPlan)
    ensures
        p.args == spec_io_args(2, IO_READ, port, 0),
        !p.do_sti,
{
    VmmCallPlan {
        args: TdVmcallArgs { r11: TDVMCALL_IO, r12: 2, r13: IO_READ, r14: port as u64, r15: 0 },
        do_sti: false,
    }
}

/// Builds a four-byte port read request.
pub fn tdvmcall_io_read_32(port: u16) -> (p: VmmCallPlan)
    ensures
        p.args == spec_io_args(4, IO_READ, port, 0),
        !p.do_sti,
{
    VmmCallPlan {
        args: TdVmcallArgs { r11: TDVMCALL_IO, r12: 4, r13: IO_READ, r14: port as u64, r15: 0 },
        do_sti: false,
    }
}

/// Builds a one-byte port write request.
pub fn tdvmcall_io_write_8(port: u16, byte: u8) -> (p: VmmCallPlan)
    ensures
        p.args == spec_io_args(1, IO_WRITE, port, byte as u64),
        !p.do_sti,
{
    VmmCallPlan {
        args: TdVmcallArgs {
            r11: TDVMCALL_IO,
            r12: 1,
            r13: IO_WRITE,
            r14: port as u64,
            r15: byte as u64,
        },
        do_sti: false,
    }
}

/// Builds a two-byte port write request.
pub fn tdvmcall_io_write_16(port: u16, byte: u16) -> (p: VmmCallPlan)
    ensures
        p.args == spec_io_args(2, IO_WRITE, port, byte as u64),
        !p.do_sti,
{
    VmmCallPlan {
        args: TdVmcallArgs {
            r11: TDVMCALL_IO,
            r12: 2,
            r13: IO_WRITE,
            r14: port as u64,
            r15: byte as u64,
        },
        do_sti: false,
    }
}

/// Builds a four-byte port write request.
pub fn tdvmcall_io_write_32(port: u16, byte: u32) -> (p: VmmCallPlan)
    ensures
        p.args == spec_io_args(4, IO_WRITE, port, byte as u64),
        !p.do_sti,
{
    VmmCallPlan {
        args: TdVmcallArgs {
            r11: TDVMCALL_IO,
            r12: 4,
            r13: IO_WRITE,
            r14: port as u64,
            r15: byte as u64,
        },
        do_sti: false,
    }
}

/// The value a completed port read hands back in `r11`, narrowed to one byte.
pub fn io_read_8_result(args: &TdVmcallArgs) -> (v: u8)
    ensures
        v == (args.r11 & 0xff) as u8,
{
    proof {
        let r11 = args.r11;
        assert(r11 & 0xff <= 0xff) by (bit_vector);
    }
    (args.r11 & 0xff) as u8
}

/// The value a completed port read hands back in `r11`, narrowed to two bytes.
pub fn io_read_16_result(args: &TdVmcallArgs) -> (v: u16)
    ensures
        v == (args.r11 & 0xffff) as u16,
{
    proof {
        let r11 = args.r11;
        assert(r11 & 0xffff <= 0xffff) by (bit_vector);
    }
    (args.r11 & 0xffff) as u16
}

/// The value a completed port read hands back in `r11`, narrowed to four bytes.
pub fn io_read_32_result(args: &TdVmcallArgs) -> (v: u32)
    ensures
        v == (args.r11 & 0xffff_ffff) as u32,
{
    proof {
        let r11 = args.r11;
        assert(r11 & 0xffff_ffff <= 0xffff_ffff) by (bit_vector);
    }
    (args.r11 & 0xffff_ffff) as u32
}

/// Builds an emulated MMIO read request of `size` bytes. MMIO targets are
/// always host-shared, so the address is combined with the shared mask.
/// The platform issues a full memory barrier just before the call.
pub fn tdvmcall_mmio_read(address: u64, size: u64, shared_mask: u64) -> (p: VmmCallPlan)
    ensures
        p.args.r11 == TDVMCALL_MMIO,
        p.args.r12 == size,
        p.args.r13 == IO_READ,
        p.args.r14 == (address | shared_mask),
        p.args.r15 == 0,
        !p.do_sti,
{
    VmmCallPlan {
        args: TdVmcallArgs {
            r11: TDVMCALL_MMIO,
            r12: size,
            r13: IO_READ,
            r14: address | shared_mask,
            r15: 0,
        },
        do_sti: false,
    }
}

/// Builds an emulated MMIO write request of `size` bytes, with the address
/// combined with the shared mask, as for the read.
pub fn tdvmcall_mmio_write(address: u64, size: u64, value: u64, shared_mask: u64) -> (p:
    VmmCallPlan)
    ensures
        p.args.r11 == TDVMCALL_MMIO,
        p.args.r12 == size,
        p.args.r13 == IO_WRITE,
        p.args.r14 == (address | shared_mask),
        p.args.r15 == value,
        !p.do_sti,
{
    VmmCallPlan {
        args: TdVmcallArgs {
            r11: TDVMCALL_MMIO,
            r12: size,
            r13: IO_WRITE,
            r14: address | shared_mask,
            r15: value,
        },
        do_sti: false,
    }
}

/// The value a completed MMIO read hands back in `r11`, narrowed to the
/// access size.
pub fn mmio_read_result(size: u64, args: &TdVmcallArgs) -> (v: u64)
    requires
        size == 1 || size == 2 || size == 4 || size == 8,
    ensures
        size == 1 ==> v == args.r11 & 0xff,
        size == 2 ==> v == args.r11 & 0xffff,
        size == 4 ==> v == args.r11 & 0xffff_ffff,
        size == 8 ==> v == args.r11,
{
    if size == 1 {
        args.r11 & 0xff
    } else if size == 2 {
        args.r11 & 0xffff
    } else if size == 4 {
        args.r11 & 0xffff_ffff
    } else {
        args.r11
    }
}

/// Builds the request that asks the host to remap `[paddr, paddr + length)`
/// as shared (`shared` set: mask bit set on the address) or private
/// (`shared` clear: mask bit cleared).
pub fn tdvmcall_mapgpa(shared: bool, paddr: u64, length: usize, shared_mask: u64) -> (p:
    VmmCallPlan)
    ensures
        p.args.r11 == TDVMCALL_MAPGPA,
        p.args.r12 == spec_mapgpa_operand(shared, paddr, shared_mask),
        p.args.r13 == length as u64,
        p.args.r14 == 0 && p.args.r15 == 0,
        !p.do_sti,
{
    let tagged: u64 = if shared {
        paddr | shared_mask
    } else {
        paddr & !shared_mask
    };
    VmmCallPlan {
        args: TdVmcallArgs {
            r11: TDVMCALL_MAPGPA,
            r12: tagged,
            r13: length as u64,
            r14: 0,
            r15: 0,
        },
        do_sti: false,
    }
}

/// Builds a model-specific-register read request.
pub fn tdvmcall_rdmsr(index: u32) -> (p: VmmCallPlan)
    ensures
        p.args.r11 == TDVMCALL_RDMSR,
        p.args.r12 == index as u64,
        p.args.r13 == 0 && p.args.r14 == 0 && p.args.r15 == 0,
        !p.do_sti,
{
    VmmCallPlan {
        args: TdVmcallArgs { r11: TDVMCALL_RDMSR, r12: index as u64, r13: 0, r14: 0, r15: 0 },
        do_sti: false,
    }
}

/// Completes a model-specific-register read: the register value from `r11`
/// on success, the typed error otherwise.
pub fn rdmsr_result(status: u64, args: &TdVmcallArgs) -> (r: Result<u64, TdVmcallError>)
    ensures
        status == TDVMCALL_STATUS_SUCCESS ==> r == Ok::<u64, TdVmcallError>(args.r11),
        status != TDVMCALL_STATUS_SUCCESS ==> r == Err::<u64, TdVmcallError>(
            spec_tdvmcall_error(status),
        ),
{
    if status == TDVMCALL_STATUS_SUCCESS {
        Ok(args.r11)
    } else {
        Err(tdvmcall_error_from_status(status))
    }
}

/// Builds a model-specific-register write request.
pub fn tdvmcall_wrmsr(index: u32, value: u64) -> (p: VmmCallPlan)
    ensures
        p.args.r11 == TDVMCALL_WRMSR,
        p.args.r12 == index as u64,
        p.args.r13 == value,
        p.args.r14 == 0 && p.args.r15 == 0,
        !p.do_sti,
{
    VmmCallPlan {
        args: TdVmcallArgs { r11: TDVMCALL_WRMSR, r12: index as u64, r13: value, r14: 0, r15: 0 },
        do_sti: false,
    }
}

/// Builds an emulated CPUID request for one leaf/subleaf.
pub fn tdvmcall_cpuid(eax: u32, ecx: u32) -> (p: VmmCallPlan)
    ensures
        p.args.r11 == TDVMCALL_CPUID,
        p.args.r12 == eax as u64,
        p.args.r13 == ecx as u64,
        p.args.r14 == 0 && p.args.r15 == 0,
        !p.do_sti,
{
    VmmCallPlan {
        args: TdVmcallArgs {
            r11: TDVMCALL_CPUID,
            r12: eax as u64,
            r13: ecx as u64,
            r14: 0,
            r15: 0,
        },
        do_sti: false,
    }
}

/// The four emulated CPUID registers a completed request hands back in
/// `r12`..`r15`, each narrowed to 32 bits.
pub fn cpuid_result(args: &TdVmcallArgs) -> (info: CpuIdInfo)
    ensures
        info.eax == (args.r12 & 0xffff_ffff) as u32,
        info.ebx == (args.r13 & 0xffff_ffff) as u32,
        info.ecx == (args.r14 & 0xffff_ffff) as u32,
        info.edx == (args.r15 & 0xffff_ffff) as u32,
{
    proof {
        let (r12, r13, r14, r15) = (args.r12, args.r13, args.r14, args.r15);
        assert(r12 & 0xffff_ffff <= 0xffff_ffff) by (bit_vector);
        assert(r13 & 0xffff_ffff <= 0xffff_ffff) by (bit_vector);
        assert(r14 & 0xffff_ffff <= 0xffff_ffff) by (bit_vector);
        assert(r15 & 0xffff_ffff <= 0xffff_ffff) by (bit_vector);
    }
    CpuIdInfo {
        eax: (args.r12 & 0xffff_ffff) as u32,
        ebx: (args.r13 & 0xffff_ffff) as u32,
        ecx: (args.r14 & 0xffff_ffff) as u32,
        edx: (args.r15 & 0xffff_ffff) as u32,
    }
}

/// Builds the request registering the interrupt vector the host may use for
/// asynchronous notification.
pub fn tdvmcall_setup_event_notify(vector: u64) -> (p: VmmCallPlan)
    ensures
        p.args.r11 == TDVMCALL_SETUPEVENTNOTIFY,
        p.args.r12 == vector,
        p.args.r13 == 0 && p.args.r14 == 0 && p.args.r15 == 0,
        !p.do_sti,
{
    VmmCallPlan {
        args: TdVmcallArgs { r11: TDVMCALL_SETUPEVENTNOTIFY, r12: vector, r13: 0, r14: 0, r15: 0 },
        do_sti: false,
    }
}

/// Builds the quote-submission request for a host-shared, page-aligned
/// buffer of `buffer_len` bytes at `buffer_addr`; the address is combined
/// with the shared mask. Pre-converting and aligning the buffer is the
/// caller's responsibility, and quote completion may be asynchronous.
pub fn tdvmcall_get_quote(buffer_addr: u64, buffer_len: u64, shared_mask: u64) -> (p: VmmCallPlan)
    ensures
        p.args.r11 == TDVMCALL_GETQUOTE,
        p.args.r12 == (buffer_addr | shared_mask),
        p.args.r13 == buffer_len,
        p.args.r14 == 0 && p.args.r15 == 0,
        !p.do_sti,
{
    VmmCallPlan {
        args: TdVmcallArgs {
            r11: TDVMCALL_GETQUOTE,
            r12: buffer_addr | shared_mask,
            r13: buffer_len,
            r14: 0,
            r15: 0,
        },
        do_sti: false,
    }
}

/// Builds the guest-info request.
pub fn tdcall_get_td_info() -> (a: TdcallArgs)
    ensures
        a.rax == TDCALL_TDINFO,
        a.rcx == 0 && a.rdx == 0 && a.r8 == 0 && a.r9 == 0 && a.r10 == 0,
{
    TdcallArgs { rax: TDCALL_TDINFO, rcx: 0, rdx: 0, r8: 0, r9: 0, r10: 0 }
}

/// Completes the guest-info call: the snapshot decoded from the output
/// registers on success — address width from the low six bits of `rcx`,
/// attribute bitmap from `rdx`, the vcpu counts packed in `r8` — or the
/// typed error.
pub fn td_info_result(status: u64, args: &TdcallArgs) -> (r: Result<TdInfo, TdCallError>)
    ensures
        status == TDCALL_STATUS_SUCCESS ==> r == Ok::<TdInfo, TdCallError>(
            (TdInfo {
                gpaw: args.rcx & 0x3f,
                attributes: args.rdx,
                max_vcpus: ((args.r8 >> 32) & 0xffff_ffff) as u32,
                num_vcpus: (args.r8 & 0xffff_ffff) as u32,
                rsvd: [0, 0, 0],
            }),
        ),
        status != TDCALL_STATUS_SUCCESS ==> r == Err::<TdInfo, TdCallError>(
            spec_tdcall_error(status),
        ),
{
    if status == TDCALL_STATUS_SUCCESS {
        proof {
            let r8 = args.r8;
            assert((r8 >> 32) & 0xffff_ffff <= 0xffff_ffff) by (bit_vector);
            assert(r8 & 0xffff_ffff <= 0xffff_ffff) by (bit_vector);
        }
        Ok(
            TdInfo {
                gpaw: args.rcx & 0x3f,
                attributes: args.rdx,
                max_vcpus: ((args.r8 >> 32) & 0xffff_ffff) as u32,
                num_vcpus: (args.r8 & 0xffff_ffff) as u32,
                rsvd: [0, 0, 0],
            },
        )
    } else {
        Err(tdcall_error_from_status(status))
    }
}

/// Builds the measurement-extension request: the physical address of the
/// 64-byte-aligned digest buffer and the index of the measurement register
/// to extend.
pub fn tdcall_extend_rtmr(digest_addr: u64, mr_index: u32) -> (a: TdcallArgs)
    ensures
        a.rax == TDCALL_TDEXTENDRTMR,
        a.rcx == digest_addr,
        a.rdx == mr_index as u64,
        a.r8 == 0 && a.r9 == 0 && a.r10 == 0,
{
    TdcallArgs {
        rax: TDCALL_TDEXTENDRTMR,
        rcx: digest_addr,
        rdx: mr_index as u64,
        r8: 0,
        r9: 0,
        r10: 0,
    }
}

/// Builds one page-acceptance request. The operand is the page address
/// combined with the granule's level bit, as the acceptance engine hands
/// it out.
pub fn tdcall_accept_page(address: u64) -> (a: TdcallArgs)
    ensures
        a.rax == TDCALL_TDACCEPTPAGE,
        a.rcx == address,
        a.rdx == 0 && a.r8 == 0 && a.r9 == 0 && a.r10 == 0,
{
    TdcallArgs { rax: TDCALL_TDACCEPTPAGE, rcx: address, rdx: 0, r8: 0, r9: 0, r10: 0 }
}

/// Builds the request draining the most recent virtualization-exception
/// record.
pub fn tdcall_get_ve_info() -> (a: TdcallArgs)
    ensures
        a.rax == TDCALL_TDGETVEINFO,
        a.rcx == 0 && a.rdx == 0 && a.r8 == 0 && a.r9 == 0 && a.r10 == 0,
{
    TdcallArgs { rax: TDCALL_TDGETVEINFO, rcx: 0, rdx: 0, r8: 0, r9: 0, r10: 0 }
}

/// Completes the exception-info call: the record decoded from the output
/// registers on success — exit reason from the low half of `rcx`,
/// qualification from `rdx`, the guest addresses from `r8` and `r9`, and the
/// instruction length and info packed in `r10` — or the typed error.
pub fn ve_info_result(status: u64, args: &TdcallArgs) -> (r: Result<TdVeInfo, TdCallError>)
    ensures
        status == TDCALL_STATUS_SUCCESS ==> r == Ok::<TdVeInfo, TdCallError>(
            (TdVeInfo {
                exit_reason: (args.rcx & 0xffff_ffff) as u32,
                rsvd: 0,
                exit_qualification: args.rdx,
                guest_la: args.r8,
                guest_pa: args.r9,
                exit_instruction_length: (args.r10 & 0xffff_ffff) as u32,
                exit_instruction_info: ((args.r10 >> 32) & 0xffff_ffff) as u32,
                rsvd1: 0,
            }),
        ),
        status != TDCALL_STATUS_SUCCESS ==> r == Err::<TdVeInfo, TdCallError>(
            spec_tdcall_error(status),
        ),
{
    if status == TDCALL_STATUS_SUCCESS {
        proof {
            let (rcx, r10) = (args.rcx, args.r10);
            assert(rcx & 0xffff_ffff <= 0xffff_ffff) by (bit_vector);
            assert(r10 & 0xffff_ffff <= 0xffff_ffff) by (bit_vector);
            assert((r10 >> 32) & 0xffff_ffff <= 0xffff_ffff) by (bit_vector);
        }
        Ok(
            TdVeInfo {
                exit_reason: (args.rcx & 0xffff_ffff) as u32,
                rsvd: 0,
                exit_qualification: args.rdx,
                guest_la: args.r8,
                guest_pa: args.r9,
                exit_instruction_length: (args.r10 & 0xffff_ffff) as u32,
                exit_instruction_info: ((args.r10 >> 32) & 0xffff_ffff) as u32,
                rsvd1: 0,
            },
        )
    } else {
        Err(tdcall_error_from_status(status))
    }
}

} // verus!
