//! The boot entry: the identity spoofer first, which cannot fail the boot,
//! then the chainloader, which must succeed.

use crate::chainload::{
    chain_next, chain_step, ChainAction, Defect, Outcome,
};
use crate::diagnostic::Diagnostic;
use crate::firmware::Reply;
use crate::identity::{identity_next, identity_start, identity_step, IdentityAction};
use crate::set_os::AppleSetOS;
use vstd::prelude::*;

verus! {

/// How long the boot entry waits after a failed chainload, so that the
/// diagnostic can be read: five seconds.
pub const FAILURE_PAUSE_MICROSECONDS: usize = 5_000_000;

/// The status with which the boot entry returns to the firmware.
#[derive(Clone, Copy, Debug, PartialEq, Eq, Structural)]
pub enum ExitStatus {
    /// The chainload reported success.
    Success,
    /// The chainload failed.
    Unsupported,
}

/// A request to the driver.
#[derive(Clone, Copy, Debug, PartialEq, Eq, Structural)]
pub enum BootAction {
    /// Perform this operation on the vendor service.
    Spoof(IdentityAction),
    /// Perform this operation of the chainload.
    Chainload(ChainAction),
    /// Wait this long, then answer `Reply::Done`.
    Pause { microseconds: usize },
    /// Return to the firmware with this status.
    Exit(ExitStatus),
    /// Terminate at once, naming the defect.
    Abort(Defect),
}

/// What one answer leads to: at most one diagnostic, and the next request.
#[derive(Clone, Copy, Debug, PartialEq, Eq)]
pub struct BootStep {
    pub diagnostic: Option<Diagnostic>,
    pub action: BootAction,
}

/// The request with which the boot begins.
pub open spec fn boot_start() -> BootAction {
    BootAction::Spoof(identity_start())
}

/// What the boot does once the spoofer asks for `action`: it performs it, or,
/// where the spoofer is done, begins the chainload.
pub open spec fn after_spoofing(action: IdentityAction) -> BootAction {
    if action is Done {
        BootAction::Chainload(ChainAction::ResolveDevice)
    } else {
        BootAction::Spoof(action)
    }
}

/// What the boot does once the chainloader asks for `action`: it performs it,
/// or, where the chainloader has stopped, ends. Success exits with
/// `Success`; a hard failure is reported, paused on, and exits with
/// `Unsupported`; a defect aborts without report or pause.
pub open spec fn after_chainloading(action: ChainAction) -> BootStep {
    match action {
        ChainAction::Stop(Outcome::Completed) => BootStep {
            diagnostic: None,
            action: BootAction::Exit(ExitStatus::Success),
        },
        ChainAction::Stop(Outcome::Failed(error)) => BootStep {
            diagnostic: Some(Diagnostic::ChainloadFailed(error)),
            action: BootAction::Pause { microseconds: FAILURE_PAUSE_MICROSECONDS },
        },
        ChainAction::Stop(Outcome::Defect(defect)) => BootStep {
            diagnostic: None,
            action: BootAction::Abort(defect),
        },
        _ => BootStep { diagnostic: None, action: BootAction::Chainload(action) },
    }
}

/// The diagnostic and the request that follow `pending` once the driver
/// answered `reply`.
pub open spec fn boot_next(pending: BootAction, reply: Reply) -> BootStep {
    match pending {
        BootAction::Spoof(action) => {
            let step = identity_next(action, reply);
            BootStep { diagnostic: step.diagnostic, action: after_spoofing(step.action) }
        },
        BootAction::Chainload(action) => after_chainloading(chain_next(action, reply)),
        BootAction::Pause { .. } => BootStep {
            diagnostic: None,
            action: BootAction::Exit(ExitStatus::Unsupported),
        },
        BootAction::Exit(status) => BootStep { diagnostic: None, action: BootAction::Exit(status) },
        BootAction::Abort(defect) => BootStep { diagnostic: None, action: BootAction::Abort(defect) },
    }
}

/// The request that is pending once the driver has given the answers
/// `replies`, in that order, to a boot that started afresh.
pub open spec fn boot_pending_after(replies: Seq<Reply>) -> BootAction
    decreases replies.len(),
{
    if replies.len() == 0 {
        boot_start()
    } else {
        boot_next(boot_pending_after(replies.drop_last()), replies.last()).action
    }
}

/// Every request of a boot: entry `i` is the request that was pending when
/// `i` answers had been given.
pub open spec fn boot_requests(replies: Seq<Reply>) -> Seq<BootAction> {
    Seq::new(replies.len() + 1, |i: int| boot_pending_after(replies.take(i)))
}

/// The diagnostic, if any, that the answer `replies[i]` gave rise to.
pub open spec fn boot_diagnostic_at(replies: Seq<Reply>, i: int) -> Option<Diagnostic>
    recommends
        0 <= i < replies.len(),
{
    boot_next(boot_pending_after(replies.take(i)), replies[i]).diagnostic
}

/// The diagnostic and the request that follow `pending` once the driver
/// answered `reply`.
pub fn boot_step(pending: BootAction, reply: Reply) -> (step: BootStep)
    ensures
        step == boot_next(pending, reply),
{
    match pending {
        BootAction::Spoof(action) => {
            let step = identity_step(action, reply);
            let action = match step.action {
                IdentityAction::Done => BootAction::Chainload(ChainAction::ResolveDevice),
                action => BootAction::Spoof(action),
            };
            BootStep { diagnostic: step.diagnostic, action }
        },
        BootAction::Chainload(action) => match chain_step(action, reply) {
            ChainAction::Stop(outcome) => match outcome {
                Outcome::Completed => BootStep {
                    diagnostic: None,
                    action: BootAction::Exit(ExitStatus::Success),
                },
                Outcome::Failed(error) => BootStep {
                    diagnostic: Some(Diagnostic::ChainloadFailed(error)),
                    action: BootAction::Pause { microseconds: FAILURE_PAUSE_MICROSECONDS },
                },
                Outcome::Defect(defect) => BootStep {
                    diagnostic: None,
                    action: BootAction::Abort(defect),
                },
            },
            action => BootStep { diagnostic: None, action: BootAction::Chainload(action) },
        },
        BootAction::Pause { .. } => BootStep {
            diagnostic: None,
            action: BootAction::Exit(ExitStatus::Unsupported),
        },
        BootAction::Exit(status) => BootStep { diagnostic: None, action: BootAction::Exit(status) },
        BootAction::Abort(defect) => BootStep { diagnostic: None, action: BootAction::Abort(defect) },
    }
}

/// The boot sequence. Its model is the sequence of answers it has been given;
/// the request it waits on follows from them by [`boot_pending_after`].
pub struct BootSequence {
    pending: BootAction,
    history: Ghost<Seq<Reply>>,
}

impl View for BootSequence {
    type V = Seq<Reply>;

    closed spec fn view(&self) -> Seq<Reply> {
        self.history@
    }
}

impl BootSequence {
    #[verifier::type_invariant]
    spec fn consistent(&self) -> bool {
        self.pending == boot_pending_after(self.history@)
    }

    /// A boot that has been given no answer yet: the vendor service has to
    /// be located first.
    pub fn new() -> (boot: BootSequence)
        ensures
            boot@ == Seq::<Reply>::empty(),
    {
        let service = AppleSetOS::new();
        BootSequence {
            pending: BootAction::Spoof(IdentityAction::Locate { service: service.guid() }),
            history: Ghost(Seq::empty()),
        }
    }

    /// The request waiting for its answer.
    pub fn pending(&self) -> (action: BootAction)
        ensures
            action == boot_pending_after(self@),
    {
        proof {
            use_type_invariant(self);
        }
        self.pending
    }

    /// Takes the driver's answer to the pending request and returns what it
    /// leads to.
    pub fn step(&mut self, reply: Reply) -> (step: BootStep)
        ensures
            final(self)@ == old(self)@.push(reply),
            step == boot_next(boot_pending_after(old(self)@), reply),
            step.action == boot_pending_after(final(self)@),
            step.diagnostic == boot_diagnostic_at(final(self)@, old(self)@.len() as int),
    {
        proof {
            use_type_invariant(&*self);
        }
        let step = boot_step(self.pending, reply);
        let ghost answered = self.history@.push(reply);
        proof {
            assert(answered.drop_last() =~= self.history@);
            assert(answered.take(self.history@.len() as int) =~= self.history@);
        }
        *self = BootSequence { pending: step.action, history: Ghost(answered) };
        step
    }
}

} // verus!
