//! The vocabulary in which a driver reports what the firmware answered.

use uefi::Status;
use vstd::prelude::*;

verus! {

/// What a path on the boot volume resolved to.
#[derive(Clone, Copy, Debug, PartialEq, Eq, Structural)]
pub enum FileKind {
    Regular,
    Directory,
}

/// The firmware's answer to the pending request.
#[derive(Clone, Copy, Debug, PartialEq, Eq, Structural)]
pub enum Reply {
    /// The operation failed with this status code.
    Failed { status: usize },
    /// The operation succeeded and returned nothing the sequence depends on.
    Done,
    /// The service directory returned this many instances of the service.
    Located { handles: usize },
    /// A setter of the vendor service returned this status code.
    Returned { status: usize },
    /// The path was opened and resolved to this kind of entry.
    Opened { kind: FileKind },
    /// The file is this many bytes long.
    Size { bytes: u64 },
    /// The read stored this many bytes in the buffer.
    Read { count: usize },
}

/// A status code reports success exactly if it is zero.
pub open spec fn is_success(status: usize) -> bool {
    status == 0
}

/// Calls `uefi::Status::is_success` on the status with this code. That
/// method compares the status with `Status::SUCCESS`, whose code is zero.
#[verifier::external_body]
pub(crate) fn status_is_success(status: usize) -> (success: bool)
    ensures
        success == is_success(status),
{
    Status(status).is_success()
}

} // verus!
