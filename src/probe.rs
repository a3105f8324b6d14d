use vstd::prelude::*;
use vstd::string::StringExecFns;

use crate::check::{
    audit_install_verdict, audit_verdict, cargo_absent, cargo_audit, cargo_exists,
    check_formatting, crate_installed, crates_verdict, formatting_verdict,
    maybe_install_cargo_audit, rustup_absent, rustup_exists, target_installed, targets_verdict,
};
use crate::check_result::{CheckResult, Invocation, ProcessOutcome};
use crate::presence::texts;

verus! {

/// The checks that a run can make.
#[derive(Debug, Clone, PartialEq, Eq)]
pub enum Probe {
    /// `cargo audit` finds no vulnerable crate; cargo-audit is installed first when absent.
    Audit,
    /// `cargo fmt --check` finds the project formatted.
    FormatCheck,
    /// Every named crate is installed.
    CrateInstalled(Vec<String>),
    /// Every named target is installed.
    TargetInstalled(Vec<String>),
}

/// Where a run stands.
#[derive(Debug, Clone, Copy, PartialEq, Eq)]
pub enum Stage {
    Start,
    FindingTool,
    FindingHelper,
    InstallingHelper,
    Checking,
    Done,
}

/// What the caller observed after carrying out the last action.
#[derive(Debug, Clone, PartialEq, Eq)]
pub enum Event {
    /// The run is starting.
    Begin,
    /// Whether the tool asked for is on the search path.
    Located(bool),
    /// How the command asked for ended.
    Completed(ProcessOutcome),
}

/// What the caller is to do next.
#[derive(Debug, Clone, PartialEq, Eq)]
pub enum Action {
    /// Look for a program of this name on the search path.
    Locate(String),
    /// Run this command, capturing its output.
    Run(Invocation),
    /// The run is over, with this result.
    Report(CheckResult),
}

/// One run of a probe: which check, and how far it has gone.
#[derive(Debug, Clone, PartialEq, Eq)]
pub struct ProbeRun {
    pub probe: Probe,
    pub stage: Stage,
}

/// An invocation of `program` with `args`.
pub open spec fn invokes(inv: Invocation, program: Seq<char>, args: Seq<Seq<char>>) -> bool {
    inv.program@ == program && texts(inv.args@) == args
}

/// The program that a probe needs on the search path.
pub open spec fn required_tool(p: Probe) -> Seq<char> {
    if p is TargetInstalled {
        "rustup"@
    } else {
        "cargo"@
    }
}

/// The command whose outcome a probe judges.
pub open spec fn check_command(p: Probe) -> (Seq<char>, Seq<Seq<char>>) {
    match p {
        Probe::Audit => ("cargo"@, seq!["audit"@, "--color=always"@]),
        Probe::FormatCheck => ("cargo"@, seq!["fmt"@, "--check"@]),
        Probe::CrateInstalled(_) => ("cargo"@, seq!["install"@, "--list"@]),
        Probe::TargetInstalled(_) => ("rustup"@, seq!["target"@, "list"@]),
    }
}

/// The command that installs cargo-audit.
pub open spec fn helper_install_command() -> (Seq<char>, Seq<Seq<char>>) {
    ("cargo"@, seq!["install"@, "cargo-audit"@, "--color=always"@])
}

/// The action runs the command `c`.
pub open spec fn runs(a: Action, c: (Seq<char>, Seq<Seq<char>>)) -> bool {
    a is Run && invokes(a->Run_0, c.0, c.1)
}

/// The conclusion of a probe from the outcome of its command.
pub open spec fn probe_verdict(p: Probe, o: ProcessOutcome, r: CheckResult) -> bool {
    match p {
        Probe::Audit => audit_verdict(o, r),
        Probe::FormatCheck => formatting_verdict(o, r),
        Probe::CrateInstalled(names) => crates_verdict(texts(names@), o, r),
        Probe::TargetInstalled(targets) => targets_verdict(texts(targets@), o, r),
    }
}

/// Every probe tells a command that could not be started from one that ran
/// and failed: only the second report carries the command's output, and but
/// for the audit, whose first report is the system's own reason, the two
/// messages differ.
pub proof fn lemma_launch_failure_distinct(
    p: Probe,
    reason: String,
    stdout: String,
    stderr: String,
    unstarted: CheckResult,
    failed: CheckResult,
)
    requires
        probe_verdict(p, ProcessOutcome::LaunchFailed { reason }, unstarted),
        probe_verdict(p, ProcessOutcome::Exited { success: false, stdout, stderr }, failed),
    ensures
        unstarted is CheckError,
        failed is CheckError,
        unstarted->1 is None && unstarted->2 is None,
        failed->1 is Some && failed->2 is Some,
        !(p is Audit) ==> unstarted->0@ != failed->0@,
{
    match p {
        Probe::Audit => {},
        Probe::FormatCheck => {
            reveal_strlit("Unable to check for rust formatting. Is `cargo` in PATH?");
            reveal_strlit("Rust project is not correctly formatted");
            assert(unstarted->0@[0] != failed->0@[0]);
        },
        Probe::CrateInstalled(_) => {
            reveal_strlit("Unable to check for installed crates. Is cargo in PATH?");
            reveal_strlit("Unable to check for installed crates: `cargo install --list` failed");
            assert(unstarted->0@[36] != failed->0@[36]);
        },
        Probe::TargetInstalled(_) => {
            reveal_strlit("Unable to check for installed targets. Is rustup in PATH?");
            reveal_strlit("Unable to check for installed targets: `rustup target list` failed");
            assert(unstarted->0@[37] != failed->0@[37]);
        },
    }
}

/// A step reports exactly when it ends the run, an ended run takes no
/// further event, and a report made before the check itself is always an
/// error: the first step that fails gives the probe's result.
pub proof fn lemma_first_failure_ends_run(p: Probe, s: Stage, e: Event, t: Stage, a: Action)
    requires
        accepts(s, e),
        steps_to(p, s, e, t, a),
    ensures
        (a is Report) <==> t == Stage::Done,
        t == Stage::Done ==> forall|next: Event| !accepts(t, next),
        a is Report && s != Stage::Checking ==> a->Report_0 is CheckError,
{
}

/// The events that each stage waits for.
pub open spec fn accepts(stage: Stage, e: Event) -> bool {
    match stage {
        Stage::Start => e is Begin,
        Stage::FindingTool | Stage::FindingHelper => e is Located,
        Stage::InstallingHelper | Stage::Checking => e is Completed,
        Stage::Done => false,
    }
}

/// One step of a run: from the stage `s` of probe `p` and the event `e`,
/// the next stage `t` and the action `a`.
pub open spec fn steps_to(p: Probe, s: Stage, e: Event, t: Stage, a: Action) -> bool {
    match s {
        Stage::Start => t == Stage::FindingTool && a is Locate && a->Locate_0@ == required_tool(p),
        Stage::FindingTool => if e->Located_0 {
            if p is Audit {
                t == Stage::FindingHelper && a is Locate && a->Locate_0@ == "cargo-audit"@
            } else {
                t == Stage::Checking && runs(a, check_command(p))
            }
        } else {
            t == Stage::Done && a is Report && a->Report_0.is_error_with(
                if p is TargetInstalled {
                    rustup_absent()
                } else {
                    cargo_absent()
                },
                None,
                None,
                None,
            )
        },
        Stage::FindingHelper => if e->Located_0 {
            t == Stage::Checking && runs(a, check_command(p))
        } else {
            t == Stage::InstallingHelper && runs(a, helper_install_command())
        },
        Stage::InstallingHelper => if e->Completed_0 matches ProcessOutcome::Exited {
            success: true,
            ..
        } {
            t == Stage::Checking && runs(a, check_command(p))
        } else {
            t == Stage::Done && a is Report && audit_install_verdict(e->Completed_0, a->Report_0)
        },
        Stage::Checking => t == Stage::Done && a is Report && probe_verdict(
            p,
            e->Completed_0,
            a->Report_0,
        ),
        Stage::Done => false,
    }
}

impl ProbeRun {
    /// A run of `probe` that has not started.
    pub fn new(probe: Probe) -> (r: ProbeRun)
        ensures
            r.probe == probe,
            r.stage == Stage::Start,
    {
        ProbeRun { probe, stage: Stage::Start }
    }

    /// The command that the probe judges.
    fn check_invocation(&self) -> (r: Invocation)
        ensures
            invokes(r, check_command(self.probe).0, check_command(self.probe).1),
    {
        let r = match &self.probe {
            Probe::Audit => Invocation::new("cargo", &["audit", "--color=always"]),
            Probe::FormatCheck => Invocation::new("cargo", &["fmt", "--check"]),
            Probe::CrateInstalled(_) => Invocation::new("cargo", &["install", "--list"]),
            Probe::TargetInstalled(_) => Invocation::new("rustup", &["target", "list"]),
        };
        assert(texts(r.args@) =~= check_command(self.probe).1);
        r
    }

    /// Takes the event that the last action led to, and says what to do next.
    pub fn step(&mut self, event: Event) -> (a: Action)
        requires
            accepts(old(self).stage, event),
        ensures
            final(self).probe == old(self).probe,
            steps_to(old(self).probe, old(self).stage, event, final(self).stage, a),
    {
        match (self.stage, event) {
            (Stage::Start, _) => {
                self.stage = Stage::FindingTool;
                if matches!(self.probe, Probe::TargetInstalled(_)) {
                    Action::Locate(String::from_str("rustup"))
                } else {
                    Action::Locate(String::from_str("cargo"))
                }
            },
            (Stage::FindingTool, Event::Located(found)) => {
                if !found {
                    self.stage = Stage::Done;
                    if matches!(self.probe, Probe::TargetInstalled(_)) {
                        Action::Report(rustup_exists(false))
                    } else {
                        Action::Report(cargo_exists(false))
                    }
                } else if matches!(self.probe, Probe::Audit) {
                    self.stage = Stage::FindingHelper;
                    Action::Locate(String::from_str("cargo-audit"))
                } else {
                    self.stage = Stage::Checking;
                    Action::Run(self.check_invocation())
                }
            },
            (Stage::FindingHelper, Event::Located(found)) => {
                if found {
                    self.stage = Stage::Checking;
                    Action::Run(self.check_invocation())
                } else {
                    self.stage = Stage::InstallingHelper;
                    let inv = Invocation::new("cargo", &["install", "cargo-audit", "--color=always"]);
                    assert(texts(inv.args@) =~= helper_install_command().1);
                    Action::Run(inv)
                }
            },
            (Stage::InstallingHelper, Event::Completed(o)) => {
                let verdict = maybe_install_cargo_audit(&o);
                if verdict.is_ok() {
                    self.stage = Stage::Checking;
                    Action::Run(self.check_invocation())
                } else {
                    self.stage = Stage::Done;
                    Action::Report(verdict)
                }
            },
            (Stage::Checking, Event::Completed(o)) => {
                self.stage = Stage::Done;
                let verdict = match &self.probe {
                    Probe::Audit => cargo_audit(&o),
                    Probe::FormatCheck => check_formatting(&o),
                    Probe::CrateInstalled(names) => crate_installed(names.as_slice(), &o),
                    Probe::TargetInstalled(targets) => target_installed(targets.as_slice(), &o),
                };
                Action::Report(verdict)
            },
            _ => {
                // No other pairing satisfies `accepts`.
                assert(false);
                Action::Report(CheckResult::CheckOk)
            },
        }
    }
}

} // verus!
