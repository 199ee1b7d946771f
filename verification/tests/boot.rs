use apple_set_os_loader::boot::{
    boot_step, BootAction, BootSequence, BootStep, ExitStatus, FAILURE_PAUSE_MICROSECONDS,
};
use apple_set_os_loader::chainload::{BootError, Cause, ChainAction, Defect, Phase};
use apple_set_os_loader::diagnostic::Diagnostic;
use apple_set_os_loader::firmware::{FileKind, Reply};
use apple_set_os_loader::identity::IdentityAction;
use apple_set_os_loader::set_os::{AppleSetOS, SetOsOperation};
use uefi::Status;

/// A firmware for the tests: whether it has the vendor service, and what
/// the fixed path holds.
struct Firmware {
    vendor_service: bool,
    file: Option<Vec<u8>>,
    directory: bool,
}

impl Firmware {
    fn answer(&self, action: BootAction) -> Reply {
        match action {
            BootAction::Spoof(IdentityAction::Locate { .. }) => {
                if self.vendor_service {
                    Reply::Located { handles: 1 }
                } else {
                    Reply::Failed { status: Status::NOT_FOUND.0 }
                }
            }
            BootAction::Spoof(IdentityAction::Invoke { .. }) => Reply::Returned { status: 0 },
            BootAction::Chainload(ChainAction::OpenFile) => match (&self.file, self.directory) {
                (_, true) => Reply::Opened { kind: FileKind::Directory },
                (Some(_), false) => Reply::Opened { kind: FileKind::Regular },
                (None, false) => Reply::Failed { status: Status::NOT_FOUND.0 },
            },
            BootAction::Chainload(ChainAction::QuerySize) => {
                Reply::Size { bytes: self.file.as_ref().unwrap().len() as u64 }
            }
            BootAction::Chainload(ChainAction::Read { size }) => {
                let mut buffer = vec![0u8; size];
                let file = self.file.as_ref().unwrap();
                let count = file.len().min(size);
                buffer[..count].copy_from_slice(&file[..count]);
                assert_eq!(&buffer, file);
                Reply::Read { count }
            }
            _ => Reply::Done,
        }
    }
}

/// Drives a boot against `firmware` until the image is started or the boot
/// ends. Returns the requests made and the diagnostics recorded.
fn drive(firmware: &Firmware) -> (Vec<BootAction>, Vec<Diagnostic>) {
    let mut boot = BootSequence::new();
    let mut made = vec![boot.pending()];
    let mut diagnostics = Vec::new();
    for _ in 0..64 {
        let pending = boot.pending();
        match pending {
            BootAction::Exit(_) | BootAction::Abort(_) => break,
            BootAction::Chainload(ChainAction::StartImage) => break,
            _ => {}
        }
        let step = boot.step(firmware.answer(pending));
        diagnostics.extend(step.diagnostic);
        made.push(step.action);
    }
    (made, diagnostics)
}

#[test]
fn boot_without_vendor_service_loads_and_starts_the_image() {
    let firmware = Firmware { vendor_service: false, file: Some(vec![0x4d; 50_000]), directory: false };
    let (made, diagnostics) = drive(&firmware);
    assert_eq!(diagnostics, vec![Diagnostic::ServiceAbsent]);
    assert_eq!(
        made,
        vec![
            BootAction::Spoof(IdentityAction::Locate { service: AppleSetOS::new().guid() }),
            BootAction::Chainload(ChainAction::ResolveDevice),
            BootAction::Chainload(ChainAction::OpenVolume),
            BootAction::Chainload(ChainAction::OpenFile),
            BootAction::Chainload(ChainAction::QuerySize),
            BootAction::Chainload(ChainAction::Allocate { size: 50_000 }),
            BootAction::Chainload(ChainAction::Read { size: 50_000 }),
            BootAction::Chainload(ChainAction::LoadImage { size: 50_000 }),
            BootAction::Chainload(ChainAction::FreeBuffer),
            BootAction::Chainload(ChainAction::StartImage),
        ]
    );
    assert!(!made.iter().any(|action| matches!(
        action,
        BootAction::Exit(_) | BootAction::Abort(_) | BootAction::Pause { .. }
    )));
}

#[test]
fn boot_with_missing_file_fails_at_file_open_pauses_and_exits() {
    let firmware = Firmware { vendor_service: true, file: None, directory: false };
    let (made, diagnostics) = drive(&firmware);
    let error = BootError {
        phase: Phase::FileOpen,
        cause: Cause::Firmware { status: Status::NOT_FOUND.0 },
    };
    assert_eq!(diagnostics, vec![Diagnostic::ChainloadFailed(error)]);
    assert_eq!(
        made[made.len() - 3..],
        [
            BootAction::Chainload(ChainAction::OpenFile),
            BootAction::Pause { microseconds: 5_000_000 },
            BootAction::Exit(ExitStatus::Unsupported),
        ]
    );
    assert!(!made.contains(&BootAction::Chainload(ChainAction::StartImage)));
    assert!(Diagnostic::ChainloadFailed(error).is_hard());
    assert_eq!(Diagnostic::ChainloadFailed(error).message(), "Failed to chainload");
}

#[test]
fn boot_with_vendor_service_sets_vendor_then_version_then_chainloads() {
    let firmware = Firmware { vendor_service: true, file: Some(vec![1, 2, 3]), directory: false };
    let (made, diagnostics) = drive(&firmware);
    assert!(diagnostics.is_empty());
    assert_eq!(
        made[..5],
        [
            BootAction::Spoof(IdentityAction::Locate { service: AppleSetOS::new().guid() }),
            BootAction::Spoof(IdentityAction::Open),
            BootAction::Spoof(IdentityAction::Invoke { operation: SetOsOperation::SetOsVendor }),
            BootAction::Spoof(IdentityAction::Invoke { operation: SetOsOperation::SetOsVersion }),
            BootAction::Chainload(ChainAction::ResolveDevice),
        ]
    );
    assert_eq!(*made.last().unwrap(), BootAction::Chainload(ChainAction::StartImage));
}

#[test]
fn boot_exits_with_success_when_the_started_image_returns() {
    let mut boot = BootSequence::new();
    let firmware = Firmware { vendor_service: false, file: Some(vec![7; 16]), directory: false };
    let mut last = BootStep { diagnostic: None, action: boot.pending() };
    for _ in 0..10 {
        last = boot.step(firmware.answer(boot.pending()));
    }
    assert_eq!(last, BootStep { diagnostic: None, action: BootAction::Exit(ExitStatus::Success) });
    assert_eq!(boot.step(Reply::Done).action, BootAction::Exit(ExitStatus::Success));
}

#[test]
fn boot_with_directory_at_the_path_aborts_without_pause() {
    let firmware = Firmware { vendor_service: false, file: None, directory: true };
    let (made, diagnostics) = drive(&firmware);
    assert_eq!(diagnostics, vec![Diagnostic::ServiceAbsent]);
    assert_eq!(*made.last().unwrap(), BootAction::Abort(Defect::DirectoryAtPath));
    assert!(!made.iter().any(|action| matches!(action, BootAction::Pause { .. })));
    assert!(!made.iter().any(|action| matches!(action, BootAction::Exit(_))));
}

#[test]
fn failed_start_pauses_and_exits_with_unsupported() {
    let start = BootAction::Chainload(ChainAction::StartImage);
    let status = Status::ABORTED.0;
    let step = boot_step(start, Reply::Failed { status });
    assert_eq!(
        step,
        BootStep {
            diagnostic: Some(Diagnostic::ChainloadFailed(BootError {
                phase: Phase::ImageStart,
                cause: Cause::Firmware { status },
            })),
            action: BootAction::Pause { microseconds: 5_000_000 },
        }
    );
    assert_eq!(
        boot_step(step.action, Reply::Done),
        BootStep { diagnostic: None, action: BootAction::Exit(ExitStatus::Unsupported) }
    );
}

#[test]
fn pause_lasts_five_seconds() {
    assert_eq!(FAILURE_PAUSE_MICROSECONDS, 5_000_000);
}

#[test]
fn rejected_setters_do_not_keep_the_boot_from_chainloading() {
    let mut boot = BootSequence::new();
    boot.step(Reply::Located { handles: 1 });
    boot.step(Reply::Done);
    let vendor = boot.step(Reply::Returned { status: Status::UNSUPPORTED.0 });
    assert!(vendor.diagnostic.unwrap().is_unable_to_set());
    let version = boot.step(Reply::Returned { status: Status::UNSUPPORTED.0 });
    assert!(version.diagnostic.unwrap().is_unable_to_set());
    assert_eq!(version.action, BootAction::Chainload(ChainAction::ResolveDevice));
}

#[test]
fn ended_boot_stays_ended() {
    for ended in [
        BootAction::Exit(ExitStatus::Success),
        BootAction::Exit(ExitStatus::Unsupported),
        BootAction::Abort(Defect::DirectoryAtPath),
    ] {
        for reply in [Reply::Done, Reply::Failed { status: 3 }, Reply::Size { bytes: 9 }] {
            assert_eq!(boot_step(ended, reply), BootStep { diagnostic: None, action: ended });
        }
    }
}
