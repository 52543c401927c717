//! Decision core of the VM locator.
//!
//! The locator discovers the one host VM instance already running in the
//! process: it resolves the VM-enumeration entry point among the symbols the
//! process has loaded, invokes it once asking for at most one instance, and
//! then attaches the current thread.  The resolution, the foreign call and
//! the attachment are performed outside the library; what is verified here
//! is the classification of what the enumeration entry point reported.

use vstd::prelude::*;

verus! {

/// Status code with which the VM-enumeration entry point reports success.
pub const ENUM_STATUS_OK: i32 = 0;

/// The ways locating and attaching to the running host VM can fail.
#[derive(Clone, Copy, Debug, PartialEq, Eq)]
pub enum LocateError {
    /// The VM-enumeration entry point is absent from the symbols already
    /// loaded into the process.
    SymbolNotFound,
    /// The entry point executed but reported a non-success status code.
    CallFailed,
    /// The entry point succeeded but reported zero VM instances.
    NoVmFound,
    /// A VM was found but the current thread could not bind to it.
    AttachFailed,
}

/// Verdict on what the VM-enumeration entry point reported: a non-success
/// status code is a failed call, a successful call that found no VM instance
/// is its own failure, and only a successful call that found at least one
/// instance lets the locator proceed.
pub fn classify_enumeration(status: i32, found_vms: i32) -> (r: Result<(), LocateError>)
    ensures
        r is Ok <==> status == ENUM_STATUS_OK && found_vms != 0,
        status != ENUM_STATUS_OK ==> r == Err::<(), LocateError>(LocateError::CallFailed),
        status == ENUM_STATUS_OK && found_vms == 0 ==> r == Err::<(), LocateError>(
            LocateError::NoVmFound,
        ),
{
    if status != ENUM_STATUS_OK {
        Err(LocateError::CallFailed)
    } else if found_vms == 0 {
        Err(LocateError::NoVmFound)
    } else {
        Ok(())
    }
}

} // verus!
