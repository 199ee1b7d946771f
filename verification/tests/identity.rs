use apple_set_os_loader::diagnostic::Diagnostic;
use apple_set_os_loader::firmware::{FileKind, Reply};
use apple_set_os_loader::identity::{identity_step, IdentityAction, IdentitySpoofer, IdentityStep};
use apple_set_os_loader::set_os::{AppleSetOS, SetOsOperation};
use uefi::Status;

const VENDOR: IdentityAction = IdentityAction::Invoke { operation: SetOsOperation::SetOsVendor };
const VERSION: IdentityAction = IdentityAction::Invoke { operation: SetOsOperation::SetOsVersion };

fn quiet(action: IdentityAction) -> IdentityStep {
    IdentityStep { diagnostic: None, action }
}

fn ended(diagnostic: Diagnostic) -> IdentityStep {
    IdentityStep { diagnostic: Some(diagnostic), action: IdentityAction::Done }
}

#[test]
fn fresh_spoofer_locates_the_vendor_service() {
    let spoofer = IdentitySpoofer::new();
    assert_eq!(spoofer.pending(), IdentityAction::Locate { service: AppleSetOS::new().guid() });
}

#[test]
fn present_service_is_opened_then_set_vendor_first() {
    let mut spoofer = IdentitySpoofer::new();
    assert_eq!(spoofer.step(Reply::Located { handles: 1 }), quiet(IdentityAction::Open));
    assert_eq!(spoofer.step(Reply::Done), quiet(VENDOR));
    assert_eq!(spoofer.step(Reply::Returned { status: Status::SUCCESS.0 }), quiet(VERSION));
    assert_eq!(
        spoofer.step(Reply::Returned { status: Status::SUCCESS.0 }),
        quiet(IdentityAction::Done)
    );
    assert_eq!(spoofer.pending(), IdentityAction::Done);
}

#[test]
fn several_instances_are_treated_as_one() {
    let mut spoofer = IdentitySpoofer::new();
    assert_eq!(spoofer.step(Reply::Located { handles: 3 }), quiet(IdentityAction::Open));
}

#[test]
fn absent_service_ends_the_spoofing_softly() {
    let mut spoofer = IdentitySpoofer::new();
    assert_eq!(
        spoofer.step(Reply::Failed { status: Status::NOT_FOUND.0 }),
        ended(Diagnostic::ServiceAbsent)
    );
    let mut spoofer = IdentitySpoofer::new();
    assert_eq!(spoofer.step(Reply::Located { handles: 0 }), ended(Diagnostic::ServiceAbsent));
}

#[test]
fn service_that_cannot_be_opened_ends_the_spoofing_softly() {
    let mut spoofer = IdentitySpoofer::new();
    spoofer.step(Reply::Located { handles: 1 });
    assert_eq!(
        spoofer.step(Reply::Failed { status: Status::ACCESS_DENIED.0 }),
        ended(Diagnostic::ServiceUnavailable { status: Status::ACCESS_DENIED.0 })
    );
}

#[test]
fn rejected_vendor_is_recorded_and_version_is_still_set() {
    let mut spoofer = IdentitySpoofer::new();
    spoofer.step(Reply::Located { handles: 1 });
    spoofer.step(Reply::Done);
    let status = Status::INVALID_PARAMETER.0;
    assert_eq!(
        spoofer.step(Reply::Returned { status }),
        IdentityStep {
            diagnostic: Some(Diagnostic::SetterRejected {
                operation: SetOsOperation::SetOsVendor,
                status,
            }),
            action: VERSION,
        }
    );
    assert_eq!(spoofer.step(Reply::Returned { status: 0 }), quiet(IdentityAction::Done));
}

#[test]
fn rejected_version_is_recorded_at_the_end() {
    let mut spoofer = IdentitySpoofer::new();
    spoofer.step(Reply::Located { handles: 1 });
    spoofer.step(Reply::Done);
    spoofer.step(Reply::Returned { status: 0 });
    let status = Status::UNSUPPORTED.0;
    assert_eq!(
        spoofer.step(Reply::Returned { status }),
        ended(Diagnostic::SetterRejected { operation: SetOsOperation::SetOsVersion, status })
    );
}

#[test]
fn warning_status_is_not_success() {
    let status = Status::WARN_STALE_DATA.0;
    assert_eq!(
        identity_step(VENDOR, Reply::Returned { status }),
        IdentityStep {
            diagnostic: Some(Diagnostic::SetterRejected {
                operation: SetOsOperation::SetOsVendor,
                status,
            }),
            action: VERSION,
        }
    );
}

#[test]
fn success_is_the_status_zero_alone() {
    assert_eq!(identity_step(VENDOR, Reply::Returned { status: 0 }).diagnostic, None);
    for status in [1usize, 2, 3, usize::MAX, Status::NOT_FOUND.0] {
        assert!(identity_step(VENDOR, Reply::Returned { status }).diagnostic.is_some());
    }
}

#[test]
fn both_setters_succeeding_leave_no_unable_to_set_diagnostic() {
    let mut spoofer = IdentitySpoofer::new();
    let replies = [
        Reply::Located { handles: 1 },
        Reply::Done,
        Reply::Returned { status: 0 },
        Reply::Returned { status: 0 },
    ];
    for reply in replies {
        let step = spoofer.step(reply);
        assert!(step.diagnostic.iter().all(|diagnostic| !diagnostic.is_unable_to_set()));
        assert_eq!(step.diagnostic, None);
    }
}

#[test]
fn failed_setter_call_counts_as_a_rejection() {
    let status = Status::DEVICE_ERROR.0;
    assert_eq!(
        identity_step(VERSION, Reply::Failed { status }),
        ended(Diagnostic::SetterRejected { operation: SetOsOperation::SetOsVersion, status })
    );
}

#[test]
fn answer_of_the_wrong_shape_ends_the_spoofing() {
    let locate = IdentityAction::Locate { service: AppleSetOS::new().guid() };
    assert_eq!(identity_step(locate, Reply::Done), ended(Diagnostic::UnexpectedReply));
    assert_eq!(
        identity_step(IdentityAction::Open, Reply::Located { handles: 1 }),
        ended(Diagnostic::UnexpectedReply)
    );
    assert_eq!(
        identity_step(VENDOR, Reply::Opened { kind: FileKind::Regular }),
        ended(Diagnostic::UnexpectedReply)
    );
}

#[test]
fn spoofer_that_is_done_stays_done() {
    let mut spoofer = IdentitySpoofer::new();
    spoofer.step(Reply::Located { handles: 0 });
    for reply in [Reply::Done, Reply::Returned { status: 5 }, Reply::Failed { status: 9 }] {
        assert_eq!(spoofer.step(reply), quiet(IdentityAction::Done));
    }
}

#[test]
fn spoofing_ends_within_four_answers_whatever_they_are() {
    let replies = [
        Reply::Failed { status: 1 },
        Reply::Done,
        Reply::Located { handles: 0 },
        Reply::Located { handles: 2 },
        Reply::Returned { status: 0 },
        Reply::Returned { status: 1 },
        Reply::Opened { kind: FileKind::Directory },
        Reply::Size { bytes: 3 },
        Reply::Read { count: 3 },
    ];
    for a in replies {
        for b in replies {
            for c in replies {
                for d in replies {
                    let mut spoofer = IdentitySpoofer::new();
                    for reply in [a, b, c, d] {
                        spoofer.step(reply);
                    }
                    assert_eq!(spoofer.pending(), IdentityAction::Done);
                }
            }
        }
    }
}

#[test]
fn diagnostics_read_as_the_log_lines() {
    assert_eq!(
        Diagnostic::SetterRejected { operation: SetOsOperation::SetOsVendor, status: 1 }.message(),
        "Unable to set OS vendor"
    );
    assert_eq!(
        Diagnostic::SetterRejected { operation: SetOsOperation::SetOsVersion, status: 1 }.message(),
        "Unable to set OS version"
    );
    assert_eq!(
        Diagnostic::ServiceAbsent.message(),
        "Failed to set OS vendor & version: service absent"
    );
    assert_eq!(
        Diagnostic::ServiceUnavailable { status: 1 }.message(),
        "Failed to set OS vendor & version"
    );
    assert!(!Diagnostic::ServiceAbsent.is_unable_to_set());
    assert!(!Diagnostic::ServiceAbsent.is_hard());
}
