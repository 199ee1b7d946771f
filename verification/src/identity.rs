//! The identity spoofer: telling the firmware's vendor service that an Apple
//! operating system is booting.
//!
//! Nothing here is fatal. Where the service is absent, cannot be opened or
//! rejects a value, a diagnostic is recorded and the boot goes on.

use crate::diagnostic::Diagnostic;
use crate::firmware::{is_success, status_is_success, Reply};
use crate::narrow::{is_narrow, refused, NarrowStringError};
use crate::set_os::{apple_set_os_guid, AppleSetOS, ServiceGuid, SetOsCall, SetOsOperation};
use vstd::pervasive::unreached;
use vstd::prelude::*;
use vstd::string::StringSliceAdditionalSpecFns;

verus! {

/// The vendor name that is presented, terminator included.
pub const DESIRED_OS_VENDOR: &'static str = "Apple Inc.\0";

/// The OS version that is presented, terminator included.
pub const DESIRED_OS_VERSION: &'static str = "Mac OS X 10.15\0";

/// Which of the two strings of an identity is no narrow string, and why.
#[derive(Clone, Copy, Debug, PartialEq, Eq, Structural)]
pub enum IdentityError {
    Vendor(NarrowStringError),
    Version(NarrowStringError),
}

/// The pair of strings presented to the vendor service, each held as the
/// call that sets it. Its model is the pair `(vendor, version)` of their
/// bytes, terminators included.
pub struct OsIdentity {
    vendor: SetOsCall,
    version: SetOsCall,
}

impl View for OsIdentity {
    type V = (Seq<u8>, Seq<u8>);

    closed spec fn view(&self) -> (Seq<u8>, Seq<u8>) {
        (self.vendor@.1, self.version@.1)
    }
}

/// The bytes that the setter `operation` is called with under `identity`.
pub open spec fn argument_of(identity: (Seq<u8>, Seq<u8>), operation: SetOsOperation) -> Seq<u8> {
    match operation {
        SetOsOperation::SetOsVendor => identity.0,
        SetOsOperation::SetOsVersion => identity.1,
    }
}

/// The bytes of the fixed vendor name and OS version are what their text
/// says, and both are narrow strings.
pub proof fn lemma_desired_identity_is_narrow()
    ensures
        DESIRED_OS_VENDOR.spec_bytes() == seq![
            0x41u8, 0x70, 0x70, 0x6c, 0x65, 0x20, 0x49, 0x6e, 0x63, 0x2e, 0x00,
        ],
        DESIRED_OS_VERSION.spec_bytes() == seq![
            0x4du8, 0x61, 0x63, 0x20, 0x4f, 0x53, 0x20, 0x58, 0x20, 0x31, 0x30, 0x2e, 0x31, 0x35,
            0x00,
        ],
        is_narrow(DESIRED_OS_VENDOR.spec_bytes()),
        is_narrow(DESIRED_OS_VERSION.spec_bytes()),
{
    reveal_strlit("Apple Inc.\0");
    reveal_strlit("Mac OS X 10.15\0");
    assert(vstd::string::is_ascii(DESIRED_OS_VENDOR));
    assert(vstd::string::is_ascii(DESIRED_OS_VERSION));
    vstd::string::is_ascii_spec_bytes(DESIRED_OS_VENDOR);
    vstd::string::is_ascii_spec_bytes(DESIRED_OS_VERSION);
    assert(DESIRED_OS_VENDOR.spec_bytes() =~= seq![
        0x41u8, 0x70, 0x70, 0x6c, 0x65, 0x20, 0x49, 0x6e, 0x63, 0x2e, 0x00,
    ]);
    assert(DESIRED_OS_VERSION.spec_bytes() =~= seq![
        0x4du8, 0x61, 0x63, 0x20, 0x4f, 0x53, 0x20, 0x58, 0x20, 0x31, 0x30, 0x2e, 0x31, 0x35, 0x00,
    ]);
}

impl OsIdentity {
    #[verifier::type_invariant]
    spec fn valid(&self) -> bool {
        &&& self.vendor@.0 == SetOsOperation::SetOsVendor
        &&& self.version@.0 == SetOsOperation::SetOsVersion
    }

    /// Validates both strings, the vendor first. Each must include its
    /// terminator.
    pub fn new(vendor: &str, version: &str) -> (r: Result<OsIdentity, IdentityError>)
        ensures
            r is Ok <==> is_narrow(vendor.spec_bytes()) && is_narrow(version.spec_bytes()),
            match r {
                Ok(identity) => identity@ == (vendor.spec_bytes(), version.spec_bytes()),
                Err(IdentityError::Vendor(error)) => refused(vendor.spec_bytes(), error),
                Err(IdentityError::Version(error)) => is_narrow(vendor.spec_bytes()) && refused(
                    version.spec_bytes(),
                    error,
                ),
            },
    {
        let service = AppleSetOS::new();
        let vendor = match service.set_os_vendor(vendor) {
            Ok(call) => call,
            Err(error) => {
                return Err(IdentityError::Vendor(error));
            },
        };
        let version = match service.set_os_version(version) {
            Ok(call) => call,
            Err(error) => {
                return Err(IdentityError::Version(error));
            },
        };
        Ok(OsIdentity { vendor, version })
    }

    /// The fixed identity: [`DESIRED_OS_VENDOR`] and [`DESIRED_OS_VERSION`].
    pub fn desired() -> (identity: OsIdentity)
        ensures
            identity@ == (DESIRED_OS_VENDOR.spec_bytes(), DESIRED_OS_VERSION.spec_bytes()),
    {
        proof {
            lemma_desired_identity_is_narrow();
        }
        match OsIdentity::new(DESIRED_OS_VENDOR, DESIRED_OS_VERSION) {
            Ok(identity) => identity,
            Err(_) => unreached(),
        }
    }

    /// The call that presents this identity's string to the setter
    /// `operation`.
    pub fn call(&self, operation: SetOsOperation) -> (call: &SetOsCall)
        ensures
            call@ == (operation, argument_of(self@, operation)),
    {
        proof {
            use_type_invariant(self);
        }
        match operation {
            SetOsOperation::SetOsVendor => &self.vendor,
            SetOsOperation::SetOsVersion => &self.version,
        }
    }
}

/// A request to the driver: the operation on the vendor service to perform
/// next, or the end of the spoofing.
#[derive(Clone, Copy, Debug, PartialEq, Eq, Structural)]
pub enum IdentityAction {
    /// Ask the firmware's directory for the instances of `service`.
    Locate { service: ServiceGuid },
    /// Open the first instance returned, for exclusive use.
    Open,
    /// Call the setter `operation` with the identity's string for it.
    Invoke { operation: SetOsOperation },
    /// Nothing more to perform; release the instance if one is open.
    Done,
}

/// What one answer leads to: at most one diagnostic, and the next request.
#[derive(Clone, Copy, Debug, PartialEq, Eq)]
pub struct IdentityStep {
    pub diagnostic: Option<Diagnostic>,
    pub action: IdentityAction,
}

/// What follows the setter `operation`: the vendor is set first, the version
/// second and last.
pub open spec fn after_setter(operation: SetOsOperation) -> IdentityAction {
    match operation {
        SetOsOperation::SetOsVendor => IdentityAction::Invoke {
            operation: SetOsOperation::SetOsVersion,
        },
        SetOsOperation::SetOsVersion => IdentityAction::Done,
    }
}

/// The diagnostic and the request that follow `pending` once the firmware
/// answered `reply`.
///
/// No instance, or a failed query, ends the spoofing with `ServiceAbsent`. A
/// failed open ends it with `ServiceUnavailable`. A setter that returns a
/// status other than success is recorded and the next setter is still
/// called. An answer of the wrong shape ends the spoofing.
pub open spec fn identity_next(pending: IdentityAction, reply: Reply) -> IdentityStep {
    match (pending, reply) {
        (IdentityAction::Done, _) => IdentityStep { diagnostic: None, action: IdentityAction::Done },
        (IdentityAction::Locate { .. }, Reply::Located { handles }) => if handles > 0 {
            IdentityStep { diagnostic: None, action: IdentityAction::Open }
        } else {
            IdentityStep {
                diagnostic: Some(Diagnostic::ServiceAbsent),
                action: IdentityAction::Done,
            }
        },
        (IdentityAction::Locate { .. }, Reply::Failed { .. }) => IdentityStep {
            diagnostic: Some(Diagnostic::ServiceAbsent),
            action: IdentityAction::Done,
        },
        (IdentityAction::Open, Reply::Done) => IdentityStep {
            diagnostic: None,
            action: IdentityAction::Invoke { operation: SetOsOperation::SetOsVendor },
        },
        (IdentityAction::Open, Reply::Failed { status }) => IdentityStep {
            diagnostic: Some(Diagnostic::ServiceUnavailable { status }),
            action: IdentityAction::Done,
        },
        (IdentityAction::Invoke { operation }, Reply::Returned { status }) => IdentityStep {
            diagnostic: if is_success(status) {
                None
            } else {
                Some(Diagnostic::SetterRejected { operation, status })
            },
            action: after_setter(operation),
        },
        (IdentityAction::Invoke { operation }, Reply::Failed { status }) => IdentityStep {
            diagnostic: Some(Diagnostic::SetterRejected { operation, status }),
            action: after_setter(operation),
        },
        _ => IdentityStep {
            diagnostic: Some(Diagnostic::UnexpectedReply),
            action: IdentityAction::Done,
        },
    }
}

/// The request with which the spoofing begins.
pub open spec fn identity_start() -> IdentityAction {
    IdentityAction::Locate { service: apple_set_os_guid() }
}

/// The request that is pending once the firmware has given the answers
/// `replies`, in that order, to a spoofer that started afresh.
pub open spec fn identity_pending_after(replies: Seq<Reply>) -> IdentityAction
    decreases replies.len(),
{
    if replies.len() == 0 {
        identity_start()
    } else {
        identity_next(identity_pending_after(replies.drop_last()), replies.last()).action
    }
}

/// The diagnostic, if any, that the answer `replies[i]` gave rise to.
pub open spec fn identity_diagnostic_at(replies: Seq<Reply>, i: int) -> Option<Diagnostic>
    recommends
        0 <= i < replies.len(),
{
    identity_next(identity_pending_after(replies.take(i)), replies[i]).diagnostic
}

/// The diagnostic and the request that follow `pending` once the firmware
/// answered `reply`.
pub fn identity_step(pending: IdentityAction, reply: Reply) -> (step: IdentityStep)
    ensures
        step == identity_next(pending, reply),
{
    match pending {
        IdentityAction::Done => IdentityStep { diagnostic: None, action: IdentityAction::Done },
        IdentityAction::Locate { .. } => match reply {
            Reply::Located { handles } => if handles > 0 {
                IdentityStep { diagnostic: None, action: IdentityAction::Open }
            } else {
                ended(Diagnostic::ServiceAbsent)
            },
            Reply::Failed { .. } => ended(Diagnostic::ServiceAbsent),
            _ => ended(Diagnostic::UnexpectedReply),
        },
        IdentityAction::Open => match reply {
            Reply::Done => IdentityStep {
                diagnostic: None,
                action: IdentityAction::Invoke { operation: SetOsOperation::SetOsVendor },
            },
            Reply::Failed { status } => ended(Diagnostic::ServiceUnavailable { status }),
            _ => ended(Diagnostic::UnexpectedReply),
        },
        IdentityAction::Invoke { operation } => {
            let action = match operation {
                SetOsOperation::SetOsVendor => IdentityAction::Invoke {
                    operation: SetOsOperation::SetOsVersion,
                },
                SetOsOperation::SetOsVersion => IdentityAction::Done,
            };
            match reply {
                Reply::Returned { status } => if status_is_success(status) {
                    IdentityStep { diagnostic: None, action }
                } else {
                    IdentityStep {
                        diagnostic: Some(Diagnostic::SetterRejected { operation, status }),
                        action,
                    }
                },
                Reply::Failed { status } => IdentityStep {
                    diagnostic: Some(Diagnostic::SetterRejected { operation, status }),
                    action,
                },
                _ => ended(Diagnostic::UnexpectedReply),
            }
        },
    }
}

/// The end of the spoofing, with the diagnostic that says why.
fn ended(diagnostic: Diagnostic) -> (step: IdentityStep)
    ensures
        step == (IdentityStep { diagnostic: Some(diagnostic), action: IdentityAction::Done }),
{
    IdentityStep { diagnostic: Some(diagnostic), action: IdentityAction::Done }
}

/// The identity spoofer. Its model is the sequence of answers it has been
/// given; the request it waits on follows from them by
/// [`identity_pending_after`]. The strings that the setters are called with
/// are those of an [`OsIdentity`], which the driver holds beside it.
pub struct IdentitySpoofer {
    pending: IdentityAction,
    history: Ghost<Seq<Reply>>,
}

impl View for IdentitySpoofer {
    type V = Seq<Reply>;

    closed spec fn view(&self) -> Seq<Reply> {
        self.history@
    }
}

impl IdentitySpoofer {
    #[verifier::type_invariant]
    spec fn consistent(&self) -> bool {
        self.pending == identity_pending_after(self.history@)
    }

    /// A spoofer that has been given no answer yet: the service has to be
    /// located first, under its well-known identifier.
    pub fn new() -> (spoofer: IdentitySpoofer)
        ensures
            spoofer@ == Seq::<Reply>::empty(),
    {
        let service = AppleSetOS::new();
        IdentitySpoofer {
            pending: IdentityAction::Locate { service: service.guid() },
            history: Ghost(Seq::empty()),
        }
    }

    /// The request waiting for its answer.
    pub fn pending(&self) -> (action: IdentityAction)
        ensures
            action == identity_pending_after(self@),
    {
        proof {
            use_type_invariant(self);
        }
        self.pending
    }

    /// Takes the firmware's answer to the pending request and returns what
    /// it leads to.
    pub fn step(&mut self, reply: Reply) -> (step: IdentityStep)
        ensures
            final(self)@ == old(self)@.push(reply),
            step == identity_next(identity_pending_after(old(self)@), reply),
            step.action == identity_pending_after(final(self)@),
            step.diagnostic == identity_diagnostic_at(final(self)@, old(self)@.len() as int),
    {
        proof {
            use_type_invariant(&*self);
        }
        let step = identity_step(self.pending, reply);
        let ghost answered = self.history@.push(reply);
        proof {
            assert(answered.drop_last() =~= self.history@);
            assert(answered.take(self.history@.len() as int) =~= self.history@);
        }
        *self = IdentitySpoofer { pending: step.action, history: Ghost(answered) };
        step
    }
}

} // verus!
