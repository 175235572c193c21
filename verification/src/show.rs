//! Arguments of the show operation: display one project's summary.

use vstd::prelude::*;
use crate::execution::Execution;
use crate::options::CommandGlobalOpts;

verus! {

/// Arguments selecting which project to show.
#[derive(Clone, Debug, PartialEq, Eq)]
pub struct ShowCommand {
    /// Name of the project to show.
    pub name: String,
}

impl ShowCommand {
    /// Entry point of the show operation: selects execution of exactly
    /// this operation, with these arguments and the forwarded options.
    pub fn run(self, options: CommandGlobalOpts) -> (r: Execution)
        ensures
            r == Execution::Show(self, options),
    {
        Execution::Show(self, options)
    }
}

} // verus!
