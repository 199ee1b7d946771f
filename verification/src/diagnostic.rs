//! The failures that the boot sequence reports to the operator.

use crate::chainload::BootError;
use crate::set_os::SetOsOperation;
use vstd::prelude::*;

verus! {

/// One reported failure. All of them but `ChainloadFailed` are soft: the
/// boot sequence goes on after them.
#[derive(Clone, Copy, Debug, PartialEq, Eq, Structural)]
pub enum Diagnostic {
    /// The firmware's directory lists no instance of the vendor service.
    ServiceAbsent,
    /// The first instance of the vendor service could not be opened.
    ServiceUnavailable { status: usize },
    /// A setter of the vendor service returned a status other than success.
    SetterRejected { operation: SetOsOperation, status: usize },
    /// An answer did not fit the request to the vendor service that was
    /// pending; the identity was left as it was.
    UnexpectedReply,
    /// The chainload failed.
    ChainloadFailed(BootError),
}

/// The line that introduces a diagnostic.
pub open spec fn message_of(diagnostic: Diagnostic) -> Seq<char> {
    match diagnostic {
        Diagnostic::ServiceAbsent => "Failed to set OS vendor & version: service absent"@,
        Diagnostic::ServiceUnavailable { .. } => "Failed to set OS vendor & version"@,
        Diagnostic::UnexpectedReply => "Failed to set OS vendor & version: unexpected reply"@,
        Diagnostic::SetterRejected { operation: SetOsOperation::SetOsVendor, .. } =>
            "Unable to set OS vendor"@,
        Diagnostic::SetterRejected { operation: SetOsOperation::SetOsVersion, .. } =>
            "Unable to set OS version"@,
        Diagnostic::ChainloadFailed(_) => "Failed to chainload"@,
    }
}

impl Diagnostic {
    /// Whether this reports a setter that could not set its value.
    pub fn is_unable_to_set(&self) -> (unable: bool)
        ensures
            unable == (*self is SetterRejected),
    {
        match self {
            Diagnostic::SetterRejected { .. } => true,
            _ => false,
        }
    }

    /// Whether the boot sequence ends because of this failure.
    pub fn is_hard(&self) -> (hard: bool)
        ensures
            hard == (*self is ChainloadFailed),
    {
        match self {
            Diagnostic::ChainloadFailed(_) => true,
            _ => false,
        }
    }

    /// The line that introduces this diagnostic in the log.
    pub fn message(&self) -> (text: &'static str)
        ensures
            text@ == message_of(*self),
    {
        match self {
            Diagnostic::ServiceAbsent => "Failed to set OS vendor & version: service absent",
            Diagnostic::ServiceUnavailable { .. } => "Failed to set OS vendor & version",
            Diagnostic::UnexpectedReply => "Failed to set OS vendor & version: unexpected reply",
            Diagnostic::SetterRejected { operation, .. } => match operation {
                SetOsOperation::SetOsVendor => "Unable to set OS vendor",
                SetOsOperation::SetOsVersion => "Unable to set OS version",
            },
            Diagnostic::ChainloadFailed(_) => "Failed to chainload",
        }
    }
}

} // verus!
