//! What holds of every boot, whatever the firmware answers.

use crate::boot::{
    after_chainloading, after_spoofing, boot_diagnostic_at, boot_next, boot_pending_after,
    boot_requests, boot_start, BootAction, BootStep, ExitStatus, FAILURE_PAUSE_MICROSECONDS,
};
use crate::chainload::{pending_after, ChainAction, Outcome, Phase};
use crate::chainload_proofs::law_no_start_after_failure;
use crate::diagnostic::Diagnostic;
use crate::firmware::Reply;
use crate::identity::{identity_diagnostic_at, identity_pending_after};
use crate::identity_proofs::{law_absent_service_is_soft, law_spoofing_ends};
use vstd::prelude::*;

verus! {

/// One more answer moves the boot by one application of [`boot_next`].
pub proof fn lemma_boot_pending_after_push(replies: Seq<Reply>, reply: Reply)
    ensures
        boot_pending_after(replies.push(reply)) == boot_next(boot_pending_after(replies), reply).action,
        boot_diagnostic_at(replies.push(reply), replies.len() as int) == boot_next(
            boot_pending_after(replies),
            reply,
        ).diagnostic,
{
    assert(replies.push(reply).drop_last() =~= replies);
    assert(replies.push(reply).take(replies.len() as int) =~= replies);
}

/// The request pending after the first `k + 1` answers follows from the one
/// pending after the first `k`.
pub proof fn lemma_boot_requests_step(replies: Seq<Reply>, k: int)
    requires
        0 <= k < replies.len(),
    ensures
        boot_requests(replies)[k + 1] == boot_next(boot_requests(replies)[k], replies[k]).action,
{
    assert(replies.take(k + 1).drop_last() =~= replies.take(k));
}

/// Where the vendor service is absent, the boot records `ServiceAbsent` and
/// goes on to the chainload: its next request is the chainload's first.
pub proof fn law_absent_service_proceeds(reply: Reply)
    requires
        reply is Failed || reply == (Reply::Located { handles: 0 }),
    ensures
        boot_next(boot_start(), reply) == (BootStep {
            diagnostic: Some(Diagnostic::ServiceAbsent),
            action: BootAction::Chainload(ChainAction::ResolveDevice),
        }),
        boot_pending_after(seq![reply]) == BootAction::Chainload(ChainAction::ResolveDevice),
        boot_diagnostic_at(seq![reply], 0) == Some(Diagnostic::ServiceAbsent),
{
    law_absent_service_is_soft(reply);
    lemma_boot_pending_after_push(Seq::empty(), reply);
    assert(Seq::<Reply>::empty().push(reply) =~= seq![reply]);
}

/// While the spoofer is at work the boot asks for what the spoofer asks for,
/// and once the spoofer is done the boot asks for the chainload's first
/// request.
pub proof fn lemma_boot_follows_spoofer(replies: Seq<Reply>)
    requires
        replies.len() > 0 ==> !(identity_pending_after(replies.drop_last()) is Done),
    ensures
        boot_pending_after(replies) == after_spoofing(identity_pending_after(replies)),
        replies.len() > 0 ==> boot_diagnostic_at(replies, replies.len() - 1)
            == identity_diagnostic_at(replies, replies.len() - 1),
    decreases replies.len(),
{
    if replies.len() > 0 {
        let before = replies.drop_last();
        if before.len() > 0 {
            assert(!(identity_pending_after(before.drop_last()) is Done));
        }
        lemma_boot_follows_spoofer(before);
        assert(replies.take(replies.len() - 1) =~= before);
    }
}

/// Spoofing cannot fail the boot: whatever the firmware answers, the boot
/// asks for nothing but operations on the vendor service until, after four
/// answers at the latest, it asks for the chainload's first request.
pub proof fn law_boot_reaches_chainload(replies: Seq<Reply>) -> (handoff: int)
    requires
        replies.len() >= 4,
    ensures
        1 <= handoff <= 4,
        boot_requests(replies)[handoff] == BootAction::Chainload(ChainAction::ResolveDevice),
        forall|j: int| 0 <= j < handoff ==> boot_requests(replies)[j] is Spoof,
{
    law_spoofing_ends(replies.take(4));
    let handoff = if identity_pending_after(replies.take(1)) is Done {
        1
    } else if identity_pending_after(replies.take(2)) is Done {
        2
    } else if identity_pending_after(replies.take(3)) is Done {
        3
    } else {
        4int
    };
    assert forall|j: int| 0 <= j <= handoff implies boot_requests(replies)[j] == after_spoofing(
        identity_pending_after(replies.take(j)),
    ) by {
        if j > 0 {
            assert(replies.take(j).drop_last() =~= replies.take(j - 1));
        }
        lemma_boot_follows_spoofer(replies.take(j));
    }
    assert(!(identity_pending_after(replies.take(0)) is Done));
    handoff
}

/// The chainload's first request is made once, and only operations on the
/// vendor service are asked for before it.
pub proof fn lemma_spoofing_precedes_chainload(replies: Seq<Reply>, handoff: int, j: int)
    requires
        0 <= j < handoff <= replies.len(),
        boot_requests(replies)[handoff] == BootAction::Chainload(ChainAction::ResolveDevice),
    ensures
        boot_requests(replies)[j] is Spoof,
    decreases handoff - j,
{
    lemma_boot_requests_step(replies, handoff - 1);
    if j < handoff - 1 {
        lemma_boot_requests_step(replies, j);
        lemma_spoofing_precedes_chainload(replies, handoff, j + 1);
    }
}

/// What the boot asks for when the chainloader, run on the same answers,
/// asks for `chain`.
pub open spec fn concludes(chain: ChainAction, boot: BootAction) -> bool {
    match chain {
        ChainAction::Stop(Outcome::Completed) => boot == BootAction::Exit(ExitStatus::Success),
        ChainAction::Stop(Outcome::Failed(_)) => boot == (BootAction::Pause {
            microseconds: FAILURE_PAUSE_MICROSECONDS,
        }) || boot == BootAction::Exit(ExitStatus::Unsupported),
        ChainAction::Stop(Outcome::Defect(defect)) => boot == BootAction::Abort(defect),
        _ => boot == BootAction::Chainload(chain),
    }
}

/// From the chainload's first request on, the boot runs the chainloader on
/// the answers it is given: it asks for what the chainloader asks for, and
/// ends as the chainloader's outcome says. A hard failure is reported with
/// the chainloader's error, then paused on for five seconds, then exited
/// from with `Unsupported`; success exits with `Success`; a defect aborts.
pub proof fn lemma_boot_runs_chainloader(replies: Seq<Reply>, handoff: int, given: int)
    requires
        0 <= handoff,
        0 <= given,
        handoff + given <= replies.len(),
        boot_requests(replies)[handoff] == BootAction::Chainload(ChainAction::ResolveDevice),
    ensures
        concludes(
            pending_after(replies.subrange(handoff, handoff + given)),
            boot_requests(replies)[handoff + given],
        ),
        given > 0 && !(pending_after(replies.subrange(handoff, handoff + given - 1)) is Stop) ==> {
            let step = boot_next(
                boot_requests(replies)[handoff + given - 1],
                replies[handoff + given - 1],
            );
            &&& step == after_chainloading(
                pending_after(replies.subrange(handoff, handoff + given)),
            )
            &&& step.diagnostic == boot_diagnostic_at(replies, handoff + given - 1)
            &&& step.action == boot_requests(replies)[handoff + given]
        },
        given > 0 && pending_after(replies.subrange(handoff, handoff + given - 1)) is Stop
            && pending_after(replies.subrange(handoff, handoff + given - 1))->Stop_0 is Failed
            ==> boot_requests(replies)[handoff + given] == BootAction::Exit(
            ExitStatus::Unsupported,
        ),
    decreases given,
{
    if given > 0 {
        lemma_boot_runs_chainloader(replies, handoff, given - 1);
        lemma_boot_requests_step(replies, handoff + given - 1);
        assert(replies.subrange(handoff, handoff + given).drop_last() =~= replies.subrange(
            handoff,
            handoff + given - 1,
        ));
    }
}

/// If the chainload ends in a hard failure of any phase before the image
/// start, or in a defect, then the boot never asked for the image to be
/// started; after a hard failure it is pausing or has exited with
/// `Unsupported`, and after a defect it has aborted.
pub proof fn law_boot_never_starts_after_failure(replies: Seq<Reply>, handoff: int, i: int)
    requires
        0 <= handoff <= replies.len(),
        0 <= i <= replies.len(),
        boot_requests(replies)[handoff] == BootAction::Chainload(ChainAction::ResolveDevice),
        match pending_after(replies.subrange(handoff, replies.len() as int)) {
            ChainAction::Stop(Outcome::Failed(error)) => error.phase != Phase::ImageStart,
            ChainAction::Stop(Outcome::Defect(_)) => true,
            _ => false,
        },
    ensures
        boot_requests(replies)[i] != BootAction::Chainload(ChainAction::StartImage),
        concludes(
            pending_after(replies.subrange(handoff, replies.len() as int)),
            boot_pending_after(replies),
        ),
{
    let chain = replies.subrange(handoff, replies.len() as int);
    lemma_boot_runs_chainloader(replies, handoff, replies.len() - handoff);
    assert(replies.take(replies.len() as int) =~= replies);
    if i < handoff {
        lemma_spoofing_precedes_chainload(replies, handoff, i);
    } else {
        lemma_boot_runs_chainloader(replies, handoff, i - handoff);
        law_no_start_after_failure(chain, i - handoff);
        assert(chain.take(i - handoff) =~= replies.subrange(handoff, i));
    }
}

/// The pause belongs to hard failures alone: the boot exits with
/// `Unsupported` only after it has paused, and where it aborts or exits with
/// `Success` it has not paused.
pub proof fn law_pause_precedes_failure_exit(replies: Seq<Reply>)
    ensures
        match boot_pending_after(replies) {
            BootAction::Pause { microseconds } => microseconds == FAILURE_PAUSE_MICROSECONDS,
            BootAction::Exit(ExitStatus::Unsupported) => replies.len() >= 1 && exists|j: int|
                0 <= j < replies.len() && boot_requests(replies)[j] is Pause,
            _ => forall|j: int| 0 <= j <= replies.len() ==> !(boot_requests(replies)[j] is Pause),
        },
    decreases replies.len(),
{
    if replies.len() > 0 {
        let before = replies.drop_last();
        law_pause_precedes_failure_exit(before);
        assert forall|j: int| 0 <= j < replies.len() implies boot_requests(replies)[j]
            == boot_requests(before)[j] by {
            assert(replies.take(j) =~= before.take(j));
        }
        assert(before.take(before.len() as int) =~= before);
        assert(replies.take(replies.len() as int) =~= replies);
        match boot_pending_after(before) {
            BootAction::Pause { .. } => {
                assert(boot_requests(replies)[replies.len() - 1] is Pause);
            },
            BootAction::Exit(ExitStatus::Unsupported) => {
                let j = choose|j: int| 0 <= j < before.len() && boot_requests(before)[j] is Pause;
                assert(boot_requests(replies)[j] is Pause);
            },
            _ => {},
        }
    } else {
        assert(replies.take(0) =~= replies);
    }
}

/// Once the boot has paused it exits with `Unsupported` and stays there.
pub proof fn lemma_pause_ends_the_boot(replies: Seq<Reply>, paused: int, later: int)
    requires
        0 <= paused < later <= replies.len(),
        boot_requests(replies)[paused] is Pause,
    ensures
        boot_requests(replies)[later] == BootAction::Exit(ExitStatus::Unsupported),
    decreases later,
{
    lemma_boot_requests_step(replies, later - 1);
    if paused < later - 1 {
        lemma_pause_ends_the_boot(replies, paused, later - 1);
    }
}

/// A hard failure is reported by a single diagnostic: the answer that fails
/// the chainload is the one after which the boot pauses, and no other
/// answer of the boot is reported as a failed chainload.
pub proof fn law_failure_is_reported_once(replies: Seq<Reply>, i: int, j: int)
    requires
        0 <= i < replies.len(),
        0 <= j < replies.len(),
        boot_diagnostic_at(replies, i) is Some,
        boot_diagnostic_at(replies, i)->Some_0 is ChainloadFailed,
    ensures
        boot_requests(replies)[i] is Chainload,
        boot_requests(replies)[i + 1] == (BootAction::Pause {
            microseconds: FAILURE_PAUSE_MICROSECONDS,
        }),
        boot_diagnostic_at(replies, j) is Some && boot_diagnostic_at(replies, j)->Some_0
            is ChainloadFailed ==> i == j,
{
    lemma_boot_requests_step(replies, i);
    if boot_diagnostic_at(replies, j) is Some && boot_diagnostic_at(replies, j)->Some_0
        is ChainloadFailed {
        lemma_boot_requests_step(replies, j);
        if i < j {
            lemma_pause_ends_the_boot(replies, i + 1, j + 1);
            if i + 1 < j {
                lemma_pause_ends_the_boot(replies, i + 1, j);
            }
        } else if j < i {
            lemma_pause_ends_the_boot(replies, j + 1, i + 1);
            if j + 1 < i {
                lemma_pause_ends_the_boot(replies, j + 1, i);
            }
        }
    }
}

} // verus!
