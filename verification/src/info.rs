//! Arguments of the information operation: display one project's detailed
//! configuration.

use vstd::prelude::*;
use crate::execution::Execution;
use crate::options::CommandGlobalOpts;

verus! {

/// Arguments selecting which project to report on.
#[derive(Clone, Debug, PartialEq, Eq)]
pub struct InfoCommand {
    /// Name of the project whose detailed information is requested.
    pub name: String,
}

impl InfoCommand {
    /// Entry point of the information operation: selects execution of exactly
    /// this operation, with these arguments and the forwarded options.
    pub fn run(self, options: CommandGlobalOpts) -> (r: Execution)
        ensures
            r == Execution::Information(self, options),
    {
        Execution::Information(self, options)
    }
}

} // verus!
