use vstd::prelude::*;
use vstd::string::StringExecFns;

verus! {

/// What a probe concludes.
#[derive(Debug, Clone, PartialEq, Eq)]
pub enum CheckResult {
    /// The probe found nothing wrong.
    CheckOk,
    /// The probe failed: a message, the captured standard output and
    /// standard error of the tool, and a shell command that fixes the problem.
    CheckError(String, Option<String>, Option<String>, Option<String>),
}

/// A command line: a program and its arguments.
#[derive(Debug, Clone, PartialEq, Eq)]
pub struct Invocation {
    pub program: String,
    pub args: Vec<String>,
}

/// How running a subprocess ended.
#[derive(Debug, Clone, PartialEq, Eq)]
pub enum ProcessOutcome {
    /// The program ran to its end.
    Exited { success: bool, stdout: String, stderr: String },
    /// The program could not be started at all; the operating system's reason.
    LaunchFailed { reason: String },
}

impl Invocation {
    /// A command line built from literal words.
    pub fn new(program: &str, args: &[&str]) -> (r: Invocation)
        ensures
            r.program@ == program@,
            r.args@.len() == args@.len(),
            forall|i: int| 0 <= i < args@.len() ==> #[trigger] r.args@[i]@ == args@[i]@,
    {
        let mut out: Vec<String> = Vec::new();
        let mut i: usize = 0;
        while i < args.len()
            invariant
                i <= args@.len(),
                out@.len() == i,
                forall|j: int| 0 <= j < i ==> #[trigger] out@[j]@ == args@[j]@,
            decreases args@.len() - i,
        {
            out.push(String::from_str(args[i]));
            i = i + 1;
        }
        Invocation { program: String::from_str(program), args: out }
    }
}

impl CheckResult {
    /// The result is an error with exactly these parts.
    pub open spec fn is_error_with(
        self,
        msg: Seq<char>,
        stdout: Option<Seq<char>>,
        stderr: Option<Seq<char>>,
        remedy: Option<Seq<char>>,
    ) -> bool {
        &&& self is CheckError
        &&& self->0@ == msg
        &&& opt_view(self->1) == stdout
        &&& opt_view(self->2) == stderr
        &&& opt_view(self->3) == remedy
    }

    /// An error with a message and nothing else.
    pub fn error(msg: &str) -> (r: CheckResult)
        ensures
            r.is_error_with(msg@, None, None, None),
    {
        CheckResult::CheckError(String::from_str(msg), None, None, None)
    }

    /// Whether the probe found nothing wrong.
    pub fn is_ok(&self) -> (r: bool)
        ensures
            r == (*self is CheckOk),
    {
        matches!(self, CheckResult::CheckOk)
    }
}

/// The text of an optional string.
pub open spec fn opt_view(s: Option<String>) -> Option<Seq<char>> {
    match s {
        Some(t) => Some(t@),
        None => None,
    }
}

} // verus!
