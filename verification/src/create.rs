//! Arguments of the create operation: make a new project in a space.

use vstd::prelude::*;
use crate::execution::Execution;
use crate::options::CommandGlobalOpts;

verus! {

/// Arguments selecting which project to create and where.
#[derive(Clone, Debug, PartialEq, Eq)]
pub struct CreateCommand {
    /// Name of the space the project belongs to.
    pub space_name: String,
    /// Name of the project to create.
    pub project_name: String,
}

impl CreateCommand {
    /// Entry point of the create operation: selects execution of exactly
    /// this operation, with these arguments and the forwarded options.
    pub fn run(self, options: CommandGlobalOpts) -> (r: Execution)
        ensures
            r == Execution::Create(self, options),
    {
        Execution::Create(self, options)
    }
}

} // verus!
