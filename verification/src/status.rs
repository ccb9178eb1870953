//! Status words and their translation into typed errors.
//!
//! Both call families report their result as a 64-bit status word; zero means
//! success in both. A nonzero monitor-call status carries a general class in
//! its high half, shared across all leaves, while anything outside the
//! recognized classes is kept verbatim as a leaf-specific code for leaf-aware
//! callers. The exit-to-host family uses a parallel encoding with its own
//! fixed set of general reasons.

use vstd::prelude::*;

verus! {

pub const TDCALL_STATUS_SUCCESS: u64 = 0;
/// General class in the high half: an operand of the call was invalid.
pub const TDCALL_CLASS_OPERAND_INVALID: u64 = 0xC000_0100;
/// General class in the high half: a needed resource was busy; retry later.
pub const TDCALL_CLASS_OPERAND_BUSY: u64 = 0x8000_0200;
/// Leaf-specific status of the page-acceptance leaf: the page was accepted
/// earlier already; re-acceptance is harmless.
pub const TDCALL_STATUS_PAGE_ALREADY_ACCEPTED: u64 = 0x0000_0B0A_0000_0000;
/// Leaf-specific status of the page-acceptance leaf: the monitor tracks the
/// requested range at a finer page size than the one attempted.
pub const TDCALL_STATUS_PAGE_SIZE_MISMATCH: u64 = 0xC000_0B0B_0000_0000;

pub const TDVMCALL_STATUS_SUCCESS: u64 = 0;
pub const TDVMCALL_STATUS_RETRY: u64 = 1;
pub const TDVMCALL_STATUS_OPERAND_INVALID: u64 = 0x8000_0000_0000_0000;
pub const TDVMCALL_STATUS_GPA_INUSE: u64 = 0x8000_0000_0000_0001;
pub const TDVMCALL_STATUS_ALIGN_ERROR: u64 = 0x8000_0000_0000_0002;

/// Typed error for a failed monitor call.
#[derive(Clone, Copy, Debug, PartialEq, Eq)]
pub enum TdCallError {
    /// An operand of the call was invalid.
    OperandInvalid,
    /// A needed resource was busy; the call may be retried.
    OperandBusy,
    /// No recognized general class: the whole status word, kept verbatim
    /// for callers that understand the leaf's own codes.
    LeafSpecific(u64),
}

/// Typed error for a failed exit-to-host call.
#[derive(Clone, Copy, Debug, PartialEq, Eq)]
pub enum TdVmcallError {
    /// The host asks the guest to retry the operation.
    Retry,
    /// An operand of the call was invalid.
    OperandInvalid,
    /// The requested guest physical address is already in use.
    GpaInuse,
    /// An address operand was misaligned.
    AlignError,
    /// No recognized general reason: the whole status word, kept verbatim.
    Other(u64),
}

/// The typed error a nonzero monitor-call status translates to.
pub open spec fn spec_tdcall_error(status: u64) -> TdCallError {
    if status >> 32 == TDCALL_CLASS_OPERAND_INVALID {
        TdCallError::OperandInvalid
    } else if status >> 32 == TDCALL_CLASS_OPERAND_BUSY {
        TdCallError::OperandBusy
    } else {
        TdCallError::LeafSpecific(status)
    }
}

/// The typed error a nonzero exit-to-host status translates to.
pub open spec fn spec_tdvmcall_error(status: u64) -> TdVmcallError {
    if status == TDVMCALL_STATUS_RETRY {
        TdVmcallError::Retry
    } else if status == TDVMCALL_STATUS_OPERAND_INVALID {
        TdVmcallError::OperandInvalid
    } else if status == TDVMCALL_STATUS_GPA_INUSE {
        TdVmcallError::GpaInuse
    } else if status == TDVMCALL_STATUS_ALIGN_ERROR {
        TdVmcallError::AlignError
    } else {
        TdVmcallError::Other(status)
    }
}

/// Translates a nonzero monitor-call status: the general class is decoded
/// from the high half; everything else is kept verbatim as leaf-specific.
pub fn tdcall_error_from_status(status: u64) -> (e: TdCallError)
    requires
        status != TDCALL_STATUS_SUCCESS,
    ensures
        e == spec_tdcall_error(status),
{
    let high: u64 = status >> 32;
    if high == TDCALL_CLASS_OPERAND_INVALID {
        TdCallError::OperandInvalid
    } else if high == TDCALL_CLASS_OPERAND_BUSY {
        TdCallError::OperandBusy
    } else {
        TdCallError::LeafSpecific(status)
    }
}

/// Translates a nonzero exit-to-host status into its typed error.
pub fn tdvmcall_error_from_status(status: u64) -> (e: TdVmcallError)
    requires
        status != TDVMCALL_STATUS_SUCCESS,
    ensures
        e == spec_tdvmcall_error(status),
{
    if status == TDVMCALL_STATUS_RETRY {
        TdVmcallError::Retry
    } else if status == TDVMCALL_STATUS_OPERAND_INVALID {
        TdVmcallError::OperandInvalid
    } else if status == TDVMCALL_STATUS_GPA_INUSE {
        TdVmcallError::GpaInuse
    } else if status == TDVMCALL_STATUS_ALIGN_ERROR {
        TdVmcallError::AlignError
    } else {
        TdVmcallError::Other(status)
    }
}

/// Completes an exit-to-host call that carries no payload: success exactly
/// on status zero, and any failure translated to its typed error.
pub fn vmcall_result(status: u64) -> (r: Result<(), TdVmcallError>)
    ensures
        r is Ok <==> status == TDVMCALL_STATUS_SUCCESS,
        status != TDVMCALL_STATUS_SUCCESS ==> r == Err::<(), TdVmcallError>(
            spec_tdvmcall_error(status),
        ),
{
    if status == TDVMCALL_STATUS_SUCCESS {
        Ok(())
    } else {
        Err(tdvmcall_error_from_status(status))
    }
}

/// Completes a monitor call that carries no payload: success exactly on
/// status zero, and any failure translated to its typed error.
pub fn tdcall_result(status: u64) -> (r: Result<(), TdCallError>)
    ensures
        r is Ok <==> status == TDCALL_STATUS_SUCCESS,
        status != TDCALL_STATUS_SUCCESS ==> r == Err::<(), TdCallError>(spec_tdcall_error(status)),
{
    if status == TDCALL_STATUS_SUCCESS {
        Ok(())
    } else {
        Err(tdcall_error_from_status(status))
    }
}

} // verus!
