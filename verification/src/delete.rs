//! Arguments of the delete operation: remove an existing project.

use vstd::prelude::*;
use crate::execution::Execution;
use crate::options::CommandGlobalOpts;

verus! {

/// Arguments selecting which project to delete and from which space.
#[derive(Clone, Debug, PartialEq, Eq)]
pub struct DeleteCommand {
    /// Name of the space the project belongs to.
    pub space_name: String,
    /// Name of the project to delete.
    pub project_name: String,
}

impl DeleteCommand {
    /// Entry point of the delete operation: selects execution of exactly
    /// this operation, with these arguments and the forwarded options.
    pub fn run(self, options: CommandGlobalOpts) -> (r: Execution)
        ensures
            r == Execution::Delete(self, options),
    {
        Execution::Delete(self, options)
    }
}

} // verus!
