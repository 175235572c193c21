//! Process-wide configuration shared read-only by every operation of one
//! command invocation.

use vstd::prelude::*;

verus! {

/// Global options built once per process by the bootstrap layer and handed,
/// fully initialized, into dispatch. The router never mutates or retains
/// them: it forwards them to exactly one operation.
#[derive(Clone, Copy, Debug, PartialEq, Eq)]
pub struct CommandGlobalOpts {
    /// Print extra diagnostic output.
    pub verbose: bool,
    /// Suppress non-essential output.
    pub quiet: bool,
    /// Disable colored output.
    pub no_color: bool,
}

impl CommandGlobalOpts {
    /// Builds fully initialized options from the given flags.
    pub fn new(verbose: bool, quiet: bool, no_color: bool) -> (r: CommandGlobalOpts)
        ensures
            r.verbose == verbose,
            r.quiet == quiet,
            r.no_color == no_color,
    {
        CommandGlobalOpts { verbose, quiet, no_color }
    }
}

} // verus!
