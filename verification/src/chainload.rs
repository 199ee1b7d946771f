//! The chainloader: which firmware operation is requested next, given how the
//! firmware answered the previous one.
//!
//! The chainloader itself performs no firmware call. It holds the request that
//! is pending; the driver performs that request, reports the firmware's answer
//! as a [`Reply`], and receives the next request. Every answer either
//! advances the sequence by exactly one request or stops it.

use crate::firmware::{FileKind, Reply};
use vstd::prelude::*;

verus! {

/// Path of the second-stage loader on the volume the running image came from.
pub const CHAINLOAD_PATH: &'static str = "\\EFI\\Boot\\bootx64_original.efi";

/// The phases of a chainload, in the order in which they are entered.
#[derive(Clone, Copy, Debug, PartialEq, Eq, Structural)]
pub enum Phase {
    /// Resolving the running image's handle and the device it was loaded from.
    HandleResolution,
    /// Opening the file-system protocol on that device and its root volume.
    ProtocolOpen,
    /// Opening the fixed path read-only.
    FileOpen,
    /// Querying the file's metadata for its length.
    MetadataRead,
    /// Allocating the image buffer from the firmware pool.
    Allocation,
    /// Reading the whole file into the image buffer.
    Read,
    /// Having the firmware prepare an image from the buffer.
    ImageConstruction,
    /// Returning the image buffer to the firmware pool.
    BufferRelease,
    /// Transferring control to the prepared image.
    ImageStart,
}

/// Why a phase failed.
#[derive(Clone, Copy, Debug, PartialEq, Eq, Structural)]
pub enum Cause {
    /// The firmware reported this status code for the phase's operation.
    Firmware { status: usize },
    /// The read returned fewer or more bytes than the buffer holds.
    ShortRead { expected: usize, got: usize },
    /// The file's length does not fit the machine's address space, so no
    /// buffer of exactly that length can exist.
    FileTooLarge { bytes: u64 },
    /// The answer handed in does not answer the pending request.
    UnexpectedReply,
}

/// A hard failure of the chainload, tagged with the phase that failed.
#[derive(Clone, Copy, Debug, PartialEq, Eq, Structural)]
pub struct BootError {
    pub phase: Phase,
    pub cause: Cause,
}

/// A violated deployment invariant. Not a runtime fault: nothing recovers
/// from it and no pause precedes termination.
#[derive(Clone, Copy, Debug, PartialEq, Eq, Structural)]
pub enum Defect {
    /// The fixed path resolves to a directory.
    DirectoryAtPath,
}

/// How a chainload ended.
#[derive(Clone, Copy, Debug, PartialEq, Eq, Structural)]
pub enum Outcome {
    /// The image was started and the start call reported success.
    Completed,
    /// A phase failed.
    Failed(BootError),
    /// A deployment invariant is violated.
    Defect(Defect),
}

/// A request to the driver: the firmware operation to perform next, or the
/// end of the chainload.
#[derive(Clone, Copy, Debug, PartialEq, Eq, Structural)]
pub enum ChainAction {
    /// Resolve the running image's handle and its originating device.
    ResolveDevice,
    /// Open the file-system protocol on the device and its root volume.
    OpenVolume,
    /// Open [`CHAINLOAD_PATH`] read-only and report what it resolved to.
    OpenFile,
    /// Query the opened file's length in bytes.
    QuerySize,
    /// Allocate a pool buffer of exactly `size` bytes.
    Allocate { size: usize },
    /// Read the file into the buffer of `size` bytes in one operation.
    Read { size: usize },
    /// Prepare an image from the `size` bytes in the buffer.
    LoadImage { size: usize },
    /// Free the buffer.
    FreeBuffer,
    /// Start the prepared image.
    StartImage,
    /// Nothing more to perform; the chainload ended this way.
    Stop(Outcome),
}

/// The phase that a request belongs to; a stop belongs to none.
pub open spec fn phase_of(action: ChainAction) -> Option<Phase> {
    match action {
        ChainAction::ResolveDevice => Some(Phase::HandleResolution),
        ChainAction::OpenVolume => Some(Phase::ProtocolOpen),
        ChainAction::OpenFile => Some(Phase::FileOpen),
        ChainAction::QuerySize => Some(Phase::MetadataRead),
        ChainAction::Allocate { .. } => Some(Phase::Allocation),
        ChainAction::Read { .. } => Some(Phase::Read),
        ChainAction::LoadImage { .. } => Some(Phase::ImageConstruction),
        ChainAction::FreeBuffer => Some(Phase::BufferRelease),
        ChainAction::StartImage => Some(Phase::ImageStart),
        ChainAction::Stop(_) => None,
    }
}

/// A stop with a hard failure of `phase`.
pub open spec fn fail(phase: Phase, cause: Cause) -> ChainAction {
    ChainAction::Stop(Outcome::Failed(BootError { phase, cause }))
}

/// The request that follows `pending` once the firmware answered `reply`.
///
/// A stop is final. A reported failure stops with the pending request's
/// phase and the firmware's status. A success moves to the next request of
/// the fixed sequence, except that a directory at the path is a defect, a
/// length beyond the address space fails the allocation, and a read of any
/// count but the buffer's size fails the read. An answer of the wrong shape
/// fails the pending phase.
pub open spec fn chain_next(pending: ChainAction, reply: Reply) -> ChainAction {
    match (pending, reply) {
        (ChainAction::Stop(outcome), _) => ChainAction::Stop(outcome),
        (_, Reply::Failed { status }) => fail(
            phase_of(pending).unwrap(),
            Cause::Firmware { status },
        ),
        (ChainAction::ResolveDevice, Reply::Done) => ChainAction::OpenVolume,
        (ChainAction::OpenVolume, Reply::Done) => ChainAction::OpenFile,
        (ChainAction::OpenFile, Reply::Opened { kind: FileKind::Regular }) => ChainAction::QuerySize,
        (ChainAction::OpenFile, Reply::Opened { kind: FileKind::Directory }) => ChainAction::Stop(
            Outcome::Defect(Defect::DirectoryAtPath),
        ),
        (ChainAction::QuerySize, Reply::Size { bytes }) => if bytes <= usize::MAX {
            ChainAction::Allocate { size: bytes as usize }
        } else {
            fail(Phase::Allocation, Cause::FileTooLarge { bytes })
        },
        (ChainAction::Allocate { size }, Reply::Done) => ChainAction::Read { size },
        (ChainAction::Read { size }, Reply::Read { count }) => if count == size {
            ChainAction::LoadImage { size }
        } else {
            fail(Phase::Read, Cause::ShortRead { expected: size, got: count })
        },
        (ChainAction::LoadImage { .. }, Reply::Done) => ChainAction::FreeBuffer,
        (ChainAction::FreeBuffer, Reply::Done) => ChainAction::StartImage,
        (ChainAction::StartImage, Reply::Done) => ChainAction::Stop(Outcome::Completed),
        _ => fail(phase_of(pending).unwrap(), Cause::UnexpectedReply),
    }
}

/// The request that is pending once the firmware has given the answers
/// `replies`, in that order, to a chainloader that started afresh.
pub open spec fn pending_after(replies: Seq<Reply>) -> ChainAction
    decreases replies.len(),
{
    if replies.len() == 0 {
        ChainAction::ResolveDevice
    } else {
        chain_next(pending_after(replies.drop_last()), replies.last())
    }
}

/// Every request of a run: entry `i` is the request that was pending when
/// `i` answers had been given.
pub open spec fn requests(replies: Seq<Reply>) -> Seq<ChainAction> {
    Seq::new(replies.len() + 1, |i: int| pending_after(replies.take(i)))
}

/// The chainloader. Its model is the sequence of answers it has been given;
/// the request it waits on follows from them by [`pending_after`].
pub struct Chainloader {
    pending: ChainAction,
    history: Ghost<Seq<Reply>>,
}

impl View for Chainloader {
    type V = Seq<Reply>;

    closed spec fn view(&self) -> Seq<Reply> {
        self.history@
    }
}

impl Phase {
    /// The phase that `action` belongs to, or `None` for a stop.
    pub fn of(action: ChainAction) -> (phase: Option<Phase>)
        ensures
            phase == phase_of(action),
    {
        match action {
            ChainAction::ResolveDevice => Some(Phase::HandleResolution),
            ChainAction::OpenVolume => Some(Phase::ProtocolOpen),
            ChainAction::OpenFile => Some(Phase::FileOpen),
            ChainAction::QuerySize => Some(Phase::MetadataRead),
            ChainAction::Allocate { .. } => Some(Phase::Allocation),
            ChainAction::Read { .. } => Some(Phase::Read),
            ChainAction::LoadImage { .. } => Some(Phase::ImageConstruction),
            ChainAction::FreeBuffer => Some(Phase::BufferRelease),
            ChainAction::StartImage => Some(Phase::ImageStart),
            ChainAction::Stop(_) => None,
        }
    }
}

impl Chainloader {
    #[verifier::type_invariant]
    spec fn consistent(&self) -> bool {
        self.pending == pending_after(self.history@)
    }

    /// A chainloader that has been given no answer yet: the device has to be
    /// resolved first.
    pub fn new() -> (loader: Chainloader)
        ensures
            loader@ == Seq::<Reply>::empty(),
    {
        Chainloader { pending: ChainAction::ResolveDevice, history: Ghost(Seq::empty()) }
    }

    /// The request waiting for its answer.
    pub fn pending(&self) -> (action: ChainAction)
        ensures
            action == pending_after(self@),
    {
        proof {
            use_type_invariant(self);
        }
        self.pending
    }

    /// Takes the firmware's answer to the pending request and returns the
    /// request that is pending from now on.
    pub fn step(&mut self, reply: Reply) -> (action: ChainAction)
        ensures
            final(self)@ == old(self)@.push(reply),
            action == chain_next(pending_after(old(self)@), reply),
            action == pending_after(final(self)@),
    {
        proof {
            use_type_invariant(&*self);
        }
        let next = chain_step(self.pending, reply);
        let ghost answered = self.history@.push(reply);
        proof {
            assert(answered.drop_last() =~= self.history@);
        }
        *self = Chainloader { pending: next, history: Ghost(answered) };
        next
    }
}

/// The request that follows `pending` once the firmware answered `reply`.
pub fn chain_step(pending: ChainAction, reply: Reply) -> (action: ChainAction)
    ensures
        action == chain_next(pending, reply),
{
    match pending {
        ChainAction::Stop(outcome) => ChainAction::Stop(outcome),
        _ => match reply {
            Reply::Failed { status } => failed(pending, Cause::Firmware { status }),
            Reply::Done => match pending {
                ChainAction::ResolveDevice => ChainAction::OpenVolume,
                ChainAction::OpenVolume => ChainAction::OpenFile,
                ChainAction::Allocate { size } => ChainAction::Read { size },
                ChainAction::LoadImage { .. } => ChainAction::FreeBuffer,
                ChainAction::FreeBuffer => ChainAction::StartImage,
                ChainAction::StartImage => ChainAction::Stop(Outcome::Completed),
                _ => failed(pending, Cause::UnexpectedReply),
            },
            Reply::Opened { kind } => match pending {
                ChainAction::OpenFile => match kind {
                    FileKind::Regular => ChainAction::QuerySize,
                    FileKind::Directory => ChainAction::Stop(
                        Outcome::Defect(Defect::DirectoryAtPath),
                    ),
                },
                _ => failed(pending, Cause::UnexpectedReply),
            },
            Reply::Size { bytes } => match pending {
                ChainAction::QuerySize => match buffer_size(bytes) {
                    Some(size) => ChainAction::Allocate { size },
                    None => ChainAction::Stop(
                        Outcome::Failed(
                            BootError {
                                phase: Phase::Allocation,
                                cause: Cause::FileTooLarge { bytes },
                            },
                        ),
                    ),
                },
                _ => failed(pending, Cause::UnexpectedReply),
            },
            Reply::Read { count } => match pending {
                ChainAction::Read { size } => if count == size {
                    ChainAction::LoadImage { size }
                } else {
                    failed(pending, Cause::ShortRead { expected: size, got: count })
                },
                _ => failed(pending, Cause::UnexpectedReply),
            },
            Reply::Located { .. } | Reply::Returned { .. } => failed(
                pending,
                Cause::UnexpectedReply,
            ),
        },
    }
}

/// The stop that reports a hard failure of the pending request's phase.
fn failed(pending: ChainAction, cause: Cause) -> (action: ChainAction)
    requires
        !(pending is Stop),
    ensures
        action == fail(phase_of(pending).unwrap(), cause),
{
    match Phase::of(pending) {
        Some(phase) => ChainAction::Stop(Outcome::Failed(BootError { phase, cause })),
        None => pending,
    }
}

/// The length of the buffer that holds a file of `bytes` bytes: exactly that
/// many, or `None` where the machine cannot address so many.
pub fn buffer_size(bytes: u64) -> (size: Option<usize>)
    ensures
        size == (if bytes <= usize::MAX {
            Some(bytes as usize)
        } else {
            None
        }),
{
    if bytes <= usize::MAX as u64 {
        Some(bytes as usize)
    } else {
        None
    }
}

} // verus!
