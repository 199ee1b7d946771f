//! What holds of every run of the identity spoofer, whatever the firmware
//! answers.

use crate::diagnostic::Diagnostic;
use crate::firmware::{is_success, Reply};
use crate::identity::{
    identity_diagnostic_at, identity_next, identity_pending_after, identity_start, IdentityAction,
    IdentityStep,
};
use crate::set_os::SetOsOperation;
use vstd::prelude::*;

verus! {

/// The place of a request in the spoofer's fixed sequence, counted from
/// zero; the end has none.
pub open spec fn identity_position(action: IdentityAction) -> Option<int> {
    match action {
        IdentityAction::Locate { .. } => Some(0),
        IdentityAction::Open => Some(1),
        IdentityAction::Invoke { operation: SetOsOperation::SetOsVendor } => Some(2),
        IdentityAction::Invoke { operation: SetOsOperation::SetOsVersion } => Some(3),
        IdentityAction::Done => None,
    }
}

/// One more answer moves the spoofer by one application of
/// [`identity_next`].
pub proof fn lemma_identity_pending_after_push(replies: Seq<Reply>, reply: Reply)
    ensures
        identity_pending_after(replies.push(reply)) == identity_next(
            identity_pending_after(replies),
            reply,
        ).action,
        identity_diagnostic_at(replies.push(reply), replies.len() as int) == identity_next(
            identity_pending_after(replies),
            reply,
        ).diagnostic,
{
    assert(replies.push(reply).drop_last() =~= replies);
    assert(replies.push(reply).take(replies.len() as int) =~= replies);
}

/// Requests are made in the fixed order, one per answer: after `n` answers
/// the spoofer is done or waits on the request at place `n`.
pub proof fn lemma_identity_requests_in_order(replies: Seq<Reply>)
    ensures
        identity_pending_after(replies) is Done || identity_position(identity_pending_after(replies))
            == Some(replies.len() as int),
    decreases replies.len(),
{
    if replies.len() > 0 {
        lemma_identity_requests_in_order(replies.drop_last());
    }
}

/// The spoofer never holds up the boot: whatever the firmware answers, it is
/// done after four answers at the latest, and stays done.
pub proof fn law_spoofing_ends(replies: Seq<Reply>)
    requires
        replies.len() >= 4,
    ensures
        identity_pending_after(replies) is Done,
{
    lemma_identity_requests_in_order(replies);
}

/// Where the directory lists no instance of the vendor service, whether by
/// an empty answer or by a failed query, the spoofing ends at once with the
/// one diagnostic `ServiceAbsent`.
pub proof fn law_absent_service_is_soft(reply: Reply)
    requires
        reply is Failed || reply == (Reply::Located { handles: 0 }),
    ensures
        identity_next(identity_start(), reply) == (IdentityStep {
            diagnostic: Some(Diagnostic::ServiceAbsent),
            action: IdentityAction::Done,
        }),
        identity_pending_after(seq![reply]) is Done,
        identity_diagnostic_at(seq![reply], 0) == Some(Diagnostic::ServiceAbsent),
{
    lemma_identity_pending_after_push(Seq::empty(), reply);
    assert(Seq::<Reply>::empty().push(reply) =~= seq![reply]);
}

/// A diagnostic that a setter was unable to set its value is recorded only
/// for an answer to that setter's call which does not report success.
pub proof fn law_rejection_has_a_cause(replies: Seq<Reply>, i: int)
    requires
        0 <= i < replies.len(),
        identity_diagnostic_at(replies, i) is Some,
        identity_diagnostic_at(replies, i)->Some_0 is SetterRejected,
    ensures
        identity_pending_after(replies.take(i)) == (IdentityAction::Invoke {
            operation: identity_diagnostic_at(replies, i)->Some_0->operation,
        }),
        replies[i] == (Reply::Failed {
            status: identity_diagnostic_at(replies, i)->Some_0->SetterRejected_status,
        }) || replies[i] == (Reply::Returned {
            status: identity_diagnostic_at(replies, i)->Some_0->SetterRejected_status,
        }),
        replies[i] is Returned ==> !is_success(replies[i]->Returned_status),
{
}

/// Where the service is present, is opened, and both setters return
/// success, the run records no diagnostic at all, and so none that a setter
/// was unable to set its value. The vendor is set first, the version second.
pub proof fn law_success_is_silent(
    replies: Seq<Reply>,
    handles: usize,
    vendor_status: usize,
    version_status: usize,
)
    requires
        handles > 0,
        is_success(vendor_status),
        is_success(version_status),
        replies == seq![
            Reply::Located { handles },
            Reply::Done,
            Reply::Returned { status: vendor_status },
            Reply::Returned { status: version_status },
        ],
    ensures
        forall|i: int| 0 <= i < replies.len() ==> identity_diagnostic_at(replies, i) is None,
        identity_pending_after(replies.take(1)) == IdentityAction::Open,
        identity_pending_after(replies.take(2)) == (IdentityAction::Invoke {
            operation: SetOsOperation::SetOsVendor,
        }),
        identity_pending_after(replies.take(3)) == (IdentityAction::Invoke {
            operation: SetOsOperation::SetOsVersion,
        }),
        identity_pending_after(replies) is Done,
{
    let e0 = Seq::<Reply>::empty();
    let e1 = e0.push(replies[0]);
    let e2 = e1.push(replies[1]);
    let e3 = e2.push(replies[2]);
    let e4 = e3.push(replies[3]);
    lemma_identity_pending_after_push(e0, replies[0]);
    lemma_identity_pending_after_push(e1, replies[1]);
    lemma_identity_pending_after_push(e2, replies[2]);
    lemma_identity_pending_after_push(e3, replies[3]);
    assert(replies.take(0) =~= e0);
    assert(replies.take(1) =~= e1);
    assert(replies.take(2) =~= e2);
    assert(replies.take(3) =~= e3);
    assert(replies =~= e4);
}

} // verus!
