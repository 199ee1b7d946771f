//! The vendor service through which the firmware is told which operating
//! system is booting: its identifier and its two setters.
//!
//! The service itself is reached by the driver. What is decided here is what
//! a call of a setter carries: which setter, and a validated narrow string.

use crate::narrow::{is_narrow, refused, NarrowString, NarrowStringError};
use vstd::prelude::*;
use vstd::string::StringSliceAdditionalSpecFns;

verus! {

/// A 128-bit service identifier, in the five fields of its canonical text
/// form `time_low-time_mid-time_high_and_version-clock_seq_and_variant-node`.
#[derive(Clone, Copy, Debug, PartialEq, Eq, Structural)]
pub struct ServiceGuid {
    pub time_low: u32,
    pub time_mid: u16,
    pub time_high_and_version: u16,
    pub clock_seq_and_variant: u16,
    /// The low 48 bits hold the node; the rest is zero.
    pub node: u64,
}

impl ServiceGuid {
    /// The node fits its 48 bits.
    pub open spec fn wf(&self) -> bool {
        self.node < 0x1_0000_0000_0000
    }
}

/// The identifier of the vendor service,
/// `c5c5da95-7d5c-45e6-b2f1-3fd52bb10077`.
pub open spec fn apple_set_os_guid() -> ServiceGuid {
    ServiceGuid {
        time_low: 0xc5c5da95,
        time_mid: 0x7d5c,
        time_high_and_version: 0x45e6,
        clock_seq_and_variant: 0xb2f1,
        node: 0x3fd52bb10077,
    }
}

/// The setters of the vendor service, in the order of its interface table.
#[derive(Clone, Copy, Debug, PartialEq, Eq, Structural)]
pub enum SetOsOperation {
    SetOsVersion,
    SetOsVendor,
}

/// A call of a setter that is ready to be made: the argument is a narrow
/// string.
pub struct SetOsCall {
    operation: SetOsOperation,
    argument: NarrowString,
}

impl View for SetOsCall {
    type V = (SetOsOperation, Seq<u8>);

    closed spec fn view(&self) -> (SetOsOperation, Seq<u8>) {
        (self.operation, self.argument@)
    }
}

impl SetOsCall {
    #[verifier::type_invariant]
    spec fn valid(&self) -> bool {
        is_narrow(self.argument@)
    }

    /// The setter to call.
    pub fn operation(&self) -> (operation: SetOsOperation)
        ensures
            operation == self@.0,
    {
        self.operation
    }

    /// The argument to hand to the setter.
    pub fn argument(&self) -> (argument: &NarrowString)
        ensures
            argument@ == self@.1,
            is_narrow(argument@),
    {
        proof {
            use_type_invariant(self);
        }
        &self.argument
    }
}

/// `r` is what preparing a call of `operation` with the bytes `text` gives:
/// the call with those bytes where they are a narrow string, and the reason
/// where they are not.
pub open spec fn prepared(
    operation: SetOsOperation,
    text: Seq<u8>,
    r: Result<SetOsCall, NarrowStringError>,
) -> bool {
    &&& r is Ok <==> is_narrow(text)
    &&& match r {
        Ok(call) => call@ == (operation, text),
        Err(error) => refused(text, error),
    }
}

/// The vendor service as the boot sequence knows it.
pub struct AppleSetOS {
    guid: ServiceGuid,
}

impl View for AppleSetOS {
    type V = ServiceGuid;

    closed spec fn view(&self) -> ServiceGuid {
        self.guid
    }
}

impl AppleSetOS {
    /// The vendor service under its well-known identifier.
    pub fn new() -> (service: AppleSetOS)
        ensures
            service@ == apple_set_os_guid(),
            service@.wf(),
    {
        AppleSetOS {
            guid: ServiceGuid {
                time_low: 0xc5c5da95,
                time_mid: 0x7d5c,
                time_high_and_version: 0x45e6,
                clock_seq_and_variant: 0xb2f1,
                node: 0x3fd52bb10077,
            },
        }
    }

    /// The identifier under which the firmware's directory lists the service.
    pub fn guid(&self) -> (guid: ServiceGuid)
        ensures
            guid == self@,
    {
        self.guid
    }

    /// Prepares the call that sets the OS version to `version`, which must
    /// include its terminator.
    pub fn set_os_version(&self, version: &str) -> (r: Result<SetOsCall, NarrowStringError>)
        ensures
            prepared(SetOsOperation::SetOsVersion, version.spec_bytes(), r),
    {
        match NarrowString::new(version) {
            Ok(argument) => Ok(SetOsCall { operation: SetOsOperation::SetOsVersion, argument }),
            Err(error) => Err(error),
        }
    }

    /// Prepares the call that sets the OS vendor to `vendor`, which must
    /// include its terminator.
    pub fn set_os_vendor(&self, vendor: &str) -> (r: Result<SetOsCall, NarrowStringError>)
        ensures
            prepared(SetOsOperation::SetOsVendor, vendor.spec_bytes(), r),
    {
        match NarrowString::new(vendor) {
            Ok(argument) => Ok(SetOsCall { operation: SetOsOperation::SetOsVendor, argument }),
            Err(error) => Err(error),
        }
    }
}

} // verus!
