//! What holds of every run of the chainloader, whatever the firmware answers.
//!
//! A run is the sequence of answers given to a fresh chainloader; the
//! requests it made follow from them by [`requests`]. The statements below
//! are about all such sequences.

use crate::chainload::{
    chain_next, pending_after, phase_of, requests, BootError, Cause, ChainAction, Defect, Outcome,
    Phase,
};
use crate::firmware::{FileKind, Reply};
use vstd::prelude::*;

verus! {

/// The place of a request in the fixed sequence, counted from zero; a stop
/// has none.
pub open spec fn position(action: ChainAction) -> Option<int> {
    match action {
        ChainAction::ResolveDevice => Some(0),
        ChainAction::OpenVolume => Some(1),
        ChainAction::OpenFile => Some(2),
        ChainAction::QuerySize => Some(3),
        ChainAction::Allocate { .. } => Some(4),
        ChainAction::Read { .. } => Some(5),
        ChainAction::LoadImage { .. } => Some(6),
        ChainAction::FreeBuffer => Some(7),
        ChainAction::StartImage => Some(8),
        ChainAction::Stop(_) => None,
    }
}

/// One more answer moves the pending request by one application of
/// [`chain_next`].
pub proof fn lemma_pending_after_push(replies: Seq<Reply>, event: Reply)
    ensures
        pending_after(replies.push(event)) == chain_next(pending_after(replies), event),
{
    assert(replies.push(event).drop_last() =~= replies);
}

/// The request pending after the first `k + 1` answers follows from the one
/// pending after the first `k`.
pub proof fn lemma_requests_step(replies: Seq<Reply>, k: int)
    requires
        0 <= k < replies.len(),
    ensures
        requests(replies)[k + 1] == chain_next(requests(replies)[k], replies[k]),
{
    assert(replies.take(k + 1).drop_last() =~= replies.take(k));
}

/// Requests are made in the fixed order, one per answer: after `n` answers
/// the chainloader has stopped or waits on the request at place `n`.
pub proof fn lemma_requests_in_order(replies: Seq<Reply>)
    ensures
        pending_after(replies) is Stop || position(pending_after(replies)) == Some(
            replies.len() as int,
        ),
    decreases replies.len(),
{
    if replies.len() > 0 {
        lemma_requests_in_order(replies.drop_last());
    }
}

/// A stop is final: once the chainloader has stopped, no further answer
/// changes the outcome.
pub proof fn lemma_stop_is_final(replies: Seq<Reply>, k: int)
    requires
        0 <= k <= replies.len(),
        pending_after(replies.take(k)) is Stop,
    ensures
        pending_after(replies) == pending_after(replies.take(k)),
    decreases replies.len(),
{
    if k == replies.len() {
        assert(replies.take(k) =~= replies);
    } else {
        assert(replies.drop_last().take(k) =~= replies.take(k));
        lemma_stop_is_final(replies.drop_last(), k);
    }
}

/// No request is made twice: two different moments of a run at which the
/// chainloader has not stopped wait on different requests. In particular at
/// most one image is constructed and the buffer is allocated and freed at
/// most once.
pub proof fn law_each_request_is_made_once(replies: Seq<Reply>, i: int, j: int)
    requires
        0 <= i < j <= replies.len(),
        !(requests(replies)[i] is Stop),
    ensures
        position(requests(replies)[i]) == Some(i),
        position(requests(replies)[j]) != Some(i),
{
    lemma_requests_in_order(replies.take(i));
    lemma_requests_in_order(replies.take(j));
}

/// A failure that the firmware reports stops the chainload with a hard
/// failure tagged with the phase of the request that was pending, and with
/// the reported status.
pub proof fn law_failure_names_its_phase(replies: Seq<Reply>, status: usize)
    requires
        !(pending_after(replies) is Stop),
    ensures
        pending_after(replies.push(Reply::Failed { status })) == ChainAction::Stop(
            Outcome::Failed(
                BootError {
                    phase: phase_of(pending_after(replies)).unwrap(),
                    cause: Cause::Firmware { status },
                },
            ),
        ),
{
    lemma_pending_after_push(replies, Reply::Failed { status });
}

/// If a run ends in a hard failure of any phase before the image start, or
/// in a defect, then no request of that run asked for the image to be
/// started.
pub proof fn law_no_start_after_failure(replies: Seq<Reply>, i: int)
    requires
        0 <= i <= replies.len(),
        match pending_after(replies) {
            ChainAction::Stop(Outcome::Failed(error)) => error.phase != Phase::ImageStart,
            ChainAction::Stop(Outcome::Defect(_)) => true,
            _ => false,
        },
    ensures
        requests(replies)[i] != ChainAction::StartImage,
{
    if requests(replies)[i] == ChainAction::StartImage {
        if i == replies.len() {
            assert(replies.take(i) =~= replies);
        } else {
            lemma_requests_step(replies, i);
            lemma_stop_is_final(replies, i + 1);
        }
    }
}

/// The buffer is released on the way to the image start only: if a run ends
/// in a hard failure of any phase up to the image construction, or in a
/// defect, then no request of that run asked for the buffer to be freed.
pub proof fn law_no_release_after_failure(replies: Seq<Reply>, i: int)
    requires
        0 <= i <= replies.len(),
        match pending_after(replies) {
            ChainAction::Stop(Outcome::Failed(error)) => error.phase != Phase::BufferRelease
                && error.phase != Phase::ImageStart,
            ChainAction::Stop(Outcome::Defect(_)) => true,
            _ => false,
        },
    ensures
        requests(replies)[i] != ChainAction::FreeBuffer,
{
    if requests(replies)[i] == ChainAction::FreeBuffer {
        if i == replies.len() {
            assert(replies.take(i) =~= replies);
        } else {
            lemma_requests_step(replies, i);
            if requests(replies)[i + 1] is Stop {
                lemma_stop_is_final(replies, i + 1);
            } else if i + 1 == replies.len() {
                assert(replies.take(i + 1) =~= replies);
            } else {
                lemma_requests_step(replies, i + 1);
                lemma_stop_is_final(replies, i + 2);
            }
        }
    }
}

/// If a run asks for the image to be started, then it asked for the buffer
/// to be freed exactly once, immediately before that and immediately after
/// it asked for the image to be constructed; and it asked for an image to be
/// constructed exactly once. This holds whatever the start call then
/// reports.
pub proof fn law_buffer_freed_once(replies: Seq<Reply>, start: int)
    requires
        0 <= start <= replies.len(),
        requests(replies)[start] == ChainAction::StartImage,
    ensures
        start >= 2,
        requests(replies)[start - 1] == ChainAction::FreeBuffer,
        requests(replies)[start - 2] is LoadImage,
        forall|j: int|
            0 <= j <= replies.len() && j != start - 1 ==> requests(replies)[j]
                != ChainAction::FreeBuffer,
        forall|j: int|
            0 <= j <= replies.len() && j != start - 2 ==> !(requests(replies)[j] is LoadImage),
{
    lemma_requests_in_order(replies.take(start));
    assert(start == 8);
    lemma_requests_step(replies, 7);
    lemma_requests_step(replies, 6);
    assert forall|j: int| 0 <= j <= replies.len() implies (requests(replies)[j]
        == ChainAction::FreeBuffer ==> j == 7) && (requests(replies)[j] is LoadImage ==> j == 6) by {
        lemma_requests_in_order(replies.take(j));
    }
}

/// A directory at the fixed path ends the chainload with the defect, which
/// is not a hard failure of any phase; and it is the only way to that
/// outcome.
pub proof fn law_directory_is_defect(replies: Seq<Reply>)
    ensures
        pending_after(replies) == ChainAction::OpenFile ==> pending_after(
            replies.push(Reply::Opened { kind: FileKind::Directory }),
        ) == ChainAction::Stop(Outcome::Defect(Defect::DirectoryAtPath)),
        pending_after(replies) is Stop && pending_after(replies)->Stop_0 is Defect ==> {
            &&& replies.len() >= 3
            &&& requests(replies)[2] == ChainAction::OpenFile
            &&& replies[2] == Reply::Opened { kind: FileKind::Directory }
        },
    decreases replies.len(),
{
    lemma_pending_after_push(replies, Reply::Opened { kind: FileKind::Directory });
    if pending_after(replies) is Stop && pending_after(replies)->Stop_0 is Defect {
        let before = replies.drop_last();
        if pending_after(before) is Stop {
            law_directory_is_defect(before);
            assert(before.take(2) =~= replies.take(2));
        } else {
            lemma_requests_in_order(before);
            assert(replies.take(2) =~= before);
        }
    }
}

/// If a run asks for an image to be constructed from `size` bytes, then
/// `size` is the length the firmware reported for the file, the buffer was
/// allocated with exactly that length, and the read filled all of it.
pub proof fn law_buffer_matches_file(replies: Seq<Reply>, load: int, size: usize)
    requires
        0 <= load <= replies.len(),
        requests(replies)[load] == (ChainAction::LoadImage { size }),
    ensures
        load == 6,
        requests(replies)[3] == ChainAction::QuerySize,
        replies[3] == (Reply::Size { bytes: size as u64 }),
        requests(replies)[4] == (ChainAction::Allocate { size }),
        requests(replies)[5] == (ChainAction::Read { size }),
        replies[5] == (Reply::Read { count: size }),
{
    lemma_requests_in_order(replies.take(load));
    lemma_requests_step(replies, 5);
    lemma_requests_step(replies, 4);
    lemma_requests_step(replies, 3);
}

} // verus!
