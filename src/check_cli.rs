use vstd::prelude::*;

use crate::probe::Probe;

verus! {

/// Checks that the Rust dependencies of a project are properly installed.
#[derive(Debug)]
pub struct CliArgs {
    pub command: Command,
}

/// The check to make.
#[derive(Debug)]
pub enum Command {
    /// Runs cargo audit.
    Audit(NoopArgs),
    /// Checks that crates are installed locally.
    CrateInstalled(CrateArgs),
    /// Checks that the project is correctly formatted.
    FormatCheck(NoopArgs),
    /// Checks that release targets are installed locally.
    TargetInstalled(RustupArgs),
}

/// The crates to look for.
#[derive(Debug)]
pub struct CrateArgs {
    /// Names of crates.
    pub name: Vec<String>,
}

/// The release targets to look for.
#[derive(Debug)]
pub struct RustupArgs {
    /// Names of release targets.
    pub target: Vec<String>,
}

/// A command that takes no argument.
#[derive(Debug)]
pub struct NoopArgs {}

impl CliArgs {
    /// The arguments of a run that makes the check `command`.
    pub fn new(command: Command) -> (r: CliArgs)
        ensures
            r.command == command,
    {
        CliArgs { command }
    }

    /// The probe that the command line asks for.
    pub fn into_probe(self) -> (r: Probe)
        ensures
            match self.command {
                Command::Audit(_) => r is Audit,
                Command::FormatCheck(_) => r is FormatCheck,
                Command::CrateInstalled(a) => r == Probe::CrateInstalled(a.name),
                Command::TargetInstalled(a) => r == Probe::TargetInstalled(a.target),
            },
    {
        match self.command {
            Command::Audit(_) => Probe::Audit,
            Command::FormatCheck(_) => Probe::FormatCheck,
            Command::CrateInstalled(a) => Probe::CrateInstalled(a.name),
            Command::TargetInstalled(a) => Probe::TargetInstalled(a.target),
        }
    }
}

} // verus!
