use vstd::prelude::*;

verus! {

/// Checks for outdated crates; takes no argument.
#[derive(Debug)]
pub struct CliArgs {}

impl CliArgs {
    /// The arguments of a run.
    pub fn new() -> (r: CliArgs)
        ensures
            r == (CliArgs {}),
    {
        CliArgs {}
    }
}

} // verus!
