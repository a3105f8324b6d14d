use vstd::prelude::*;
use vstd::string::StringExecFns;

use crate::check_result::{CheckResult, ProcessOutcome};
use crate::presence::{
    crate_delim, crates_message, crates_message_text, crates_remedy, crates_remedy_text,
    find_missing_crates, find_missing_targets, missing_names, searchable, target_delim, targets_message,
    targets_message_text, targets_remedy, targets_remedy_text, texts,
};

verus! {

/// Reported when `cargo install --list` could not be started.
pub open spec fn crates_unchecked() -> Seq<char> {
    "Unable to check for installed crates. Is cargo in PATH?"@
}

/// Reported when `cargo install --list` ran and failed.
pub open spec fn crates_listing_failed() -> Seq<char> {
    "Unable to check for installed crates: `cargo install --list` failed"@
}

/// Reported when `rustup target list` could not be started.
pub open spec fn targets_unchecked() -> Seq<char> {
    "Unable to check for installed targets. Is rustup in PATH?"@
}

/// Reported when `rustup target list` ran and failed.
pub open spec fn targets_listing_failed() -> Seq<char> {
    "Unable to check for installed targets: `rustup target list` failed"@
}

/// Reported when a requested name is too long to be searched for.
pub open spec fn search_refused() -> Seq<char> {
    "Unable to search the listing: a requested name is too long"@
}

/// The conclusion drawn from a listing of installed things: those of
/// `names` that the listing does not show are reported, with the command
/// that installs them. A refusal to search comes only for a name too long
/// to be searched for.
pub open spec fn listing_verdict(
    names: Seq<Seq<char>>,
    o: ProcessOutcome,
    r: CheckResult,
    delim: Seq<char>,
    unchecked: Seq<char>,
    failed: Seq<char>,
    message: spec_fn(Seq<Seq<char>>) -> Seq<char>,
    remedy: spec_fn(Seq<Seq<char>>) -> Seq<char>,
) -> bool {
    match o {
        ProcessOutcome::LaunchFailed { .. } => r.is_error_with(unchecked, None, None, None),
        ProcessOutcome::Exited { success, stdout, stderr } => if !success {
            r.is_error_with(failed, Some(stdout@), Some(stderr@), None)
        } else {
            let m = missing_names(stdout@, names, delim);
            (!searchable(names, delim) && r.is_error_with(search_refused(), None, None, None))
                || if m.len() == 0 {
                r is CheckOk
            } else {
                r.is_error_with(message(m), Some(stdout@), Some(stderr@), Some(remedy(m)))
            }
        },
    }
}

/// The conclusion drawn from `cargo install --list` about the crates `names`.
pub open spec fn crates_verdict(names: Seq<Seq<char>>, o: ProcessOutcome, r: CheckResult) -> bool {
    listing_verdict(
        names,
        o,
        r,
        crate_delim(),
        crates_unchecked(),
        crates_listing_failed(),
        |m: Seq<Seq<char>>| crates_message_text(m),
        |m: Seq<Seq<char>>| crates_remedy_text(m),
    )
}

/// The conclusion drawn from `rustup target list` about the targets `names`.
pub open spec fn targets_verdict(names: Seq<Seq<char>>, o: ProcessOutcome, r: CheckResult) -> bool {
    listing_verdict(
        names,
        o,
        r,
        target_delim(),
        targets_unchecked(),
        targets_listing_failed(),
        |m: Seq<Seq<char>>| targets_message_text(m),
        |m: Seq<Seq<char>>| targets_remedy_text(m),
    )
}

/// Decides from the output of `cargo install --list` whether every crate of
/// `names` is installed.
pub fn crate_installed(names: &[String], outcome: &ProcessOutcome) -> (r: CheckResult)
    ensures
        crates_verdict(texts(names@), *outcome, r),
{
    match outcome {
        ProcessOutcome::LaunchFailed { .. } => CheckResult::error(
            "Unable to check for installed crates. Is cargo in PATH?",
        ),
        ProcessOutcome::Exited { success, stdout, stderr } => {
            if !*success {
                return CheckResult::CheckError(
                    String::from_str(
                        "Unable to check for installed crates: `cargo install --list` failed",
                    ),
                    Some(stdout.clone()),
                    Some(stderr.clone()),
                    None,
                );
            }
            match find_missing_crates(stdout.as_str(), names) {
                None => CheckResult::error(
                    "Unable to search the listing: a requested name is too long",
                ),
                Some(missing) => {
                    if missing.len() == 0 {
                        CheckResult::CheckOk
                    } else {
                        CheckResult::CheckError(
                            crates_message(missing.as_slice()),
                            Some(stdout.clone()),
                            Some(stderr.clone()),
                            Some(crates_remedy(missing.as_slice())),
                        )
                    }
                },
            }
        },
    }
}

/// Decides from the output of `rustup target list` whether every target of
/// `targets` is installed.
pub fn target_installed(targets: &[String], outcome: &ProcessOutcome) -> (r: CheckResult)
    ensures
        targets_verdict(texts(targets@), *outcome, r),
{
    match outcome {
        ProcessOutcome::LaunchFailed { .. } => CheckResult::error(
            "Unable to check for installed targets. Is rustup in PATH?",
        ),
        ProcessOutcome::Exited { success, stdout, stderr } => {
            if !*success {
                return CheckResult::CheckError(
                    String::from_str(
                        "Unable to check for installed targets: `rustup target list` failed",
                    ),
                    Some(stdout.clone()),
                    Some(stderr.clone()),
                    None,
                );
            }
            match find_missing_targets(stdout.as_str(), targets) {
                None => CheckResult::error(
                    "Unable to search the listing: a requested name is too long",
                ),
                Some(missing) => {
                    if missing.len() == 0 {
                        CheckResult::CheckOk
                    } else {
                        CheckResult::CheckError(
                            targets_message(missing.as_slice()),
                            Some(stdout.clone()),
                            Some(stderr.clone()),
                            Some(targets_remedy(missing.as_slice())),
                        )
                    }
                },
            }
        },
    }
}

/// Reported when `cargo` is not on the search path.
pub open spec fn cargo_absent() -> Seq<char> {
    "Unable to find cargo in PATH."@
}

/// Reported when `rustup` is not on the search path.
pub open spec fn rustup_absent() -> Seq<char> {
    "Unable to find rustup in PATH."@
}

/// The verdict on whether `cargo` is on the search path.
pub fn cargo_exists(found: bool) -> (r: CheckResult)
    ensures
        found ==> r is CheckOk,
        !found ==> r.is_error_with(cargo_absent(), None, None, None),
{
    if found {
        CheckResult::CheckOk
    } else {
        CheckResult::error("Unable to find cargo in PATH.")
    }
}

/// The verdict on whether `rustup` is on the search path.
pub fn rustup_exists(found: bool) -> (r: CheckResult)
    ensures
        found ==> r is CheckOk,
        !found ==> r.is_error_with(rustup_absent(), None, None, None),
{
    if found {
        CheckResult::CheckOk
    } else {
        CheckResult::error("Unable to find rustup in PATH.")
    }
}

/// Begins the report of an installation of cargo-audit that could not be started.
pub open spec fn audit_install_unstarted() -> Seq<char> {
    "Unable to start the installation of cargo-audit: "@
}

/// The conclusion drawn from a run of `cargo audit`.
pub open spec fn audit_verdict(o: ProcessOutcome, r: CheckResult) -> bool {
    match o {
        ProcessOutcome::Exited { success, stdout, stderr } => if success {
            r is CheckOk
        } else {
            r.is_error_with("Vulnerable crates detected"@, Some(stdout@), Some(stderr@), None)
        },
        ProcessOutcome::LaunchFailed { reason } => r.is_error_with(reason@, None, None, None),
    }
}

/// The conclusion drawn from a run of `cargo fmt --check`.
pub open spec fn formatting_verdict(o: ProcessOutcome, r: CheckResult) -> bool {
    match o {
        ProcessOutcome::Exited { success, stdout, stderr } => if success {
            r is CheckOk
        } else {
            r.is_error_with(
                "Rust project is not correctly formatted"@,
                Some(stdout@),
                Some(stderr@),
                Some("cargo fmt"@),
            )
        },
        ProcessOutcome::LaunchFailed { .. } => r.is_error_with(
            "Unable to check for rust formatting. Is `cargo` in PATH?"@,
            None,
            None,
            None,
        ),
    }
}

/// The conclusion drawn from a run of `cargo install cargo-audit`.
pub open spec fn audit_install_verdict(o: ProcessOutcome, r: CheckResult) -> bool {
    match o {
        ProcessOutcome::Exited { success, stdout, stderr } => if success {
            r is CheckOk
        } else {
            r.is_error_with("Error installing cargo-audit"@, Some(stdout@), Some(stderr@), None)
        },
        ProcessOutcome::LaunchFailed { reason } => r.is_error_with(
            audit_install_unstarted() + reason@,
            None,
            None,
            None,
        ),
    }
}

/// Decides from the run of `cargo audit` whether vulnerable crates were found.
pub fn cargo_audit(outcome: &ProcessOutcome) -> (r: CheckResult)
    ensures
        audit_verdict(*outcome, r),
{
    match outcome {
        ProcessOutcome::Exited { success, stdout, stderr } => {
            if *success {
                CheckResult::CheckOk
            } else {
                CheckResult::CheckError(
                    String::from_str("Vulnerable crates detected"),
                    Some(stdout.clone()),
                    Some(stderr.clone()),
                    None,
                )
            }
        },
        ProcessOutcome::LaunchFailed { reason } => CheckResult::CheckError(
            reason.clone(),
            None,
            None,
            None,
        ),
    }
}

/// Decides from the run of `cargo fmt --check` whether the project is formatted.
pub fn check_formatting(outcome: &ProcessOutcome) -> (r: CheckResult)
    ensures
        formatting_verdict(*outcome, r),
{
    match outcome {
        ProcessOutcome::Exited { success, stdout, stderr } => {
            if *success {
                CheckResult::CheckOk
            } else {
                CheckResult::CheckError(
                    String::from_str("Rust project is not correctly formatted"),
                    Some(stdout.clone()),
                    Some(stderr.clone()),
                    Some(String::from_str("cargo fmt")),
                )
            }
        },
        ProcessOutcome::LaunchFailed { .. } => CheckResult::error(
            "Unable to check for rust formatting. Is `cargo` in PATH?",
        ),
    }
}

/// Decides from the run of `cargo install cargo-audit` whether the helper
/// is now installed.
pub fn maybe_install_cargo_audit(outcome: &ProcessOutcome) -> (r: CheckResult)
    ensures
        audit_install_verdict(*outcome, r),
{
    match outcome {
        ProcessOutcome::Exited { success, stdout, stderr } => {
            if *success {
                CheckResult::CheckOk
            } else {
                CheckResult::CheckError(
                    String::from_str("Error installing cargo-audit"),
                    Some(stdout.clone()),
                    Some(stderr.clone()),
                    None,
                )
            }
        },
        ProcessOutcome::LaunchFailed { reason } => CheckResult::CheckError(
            String::from_str("Unable to start the installation of cargo-audit: ").concat(
                reason.as_str(),
            ),
            None,
            None,
            None,
        ),
    }
}

} // verus!
