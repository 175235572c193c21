//! Arguments of the list operation: enumerate the projects visible to a node.

use vstd::prelude::*;
use crate::execution::Execution;
use crate::options::CommandGlobalOpts;

verus! {

/// Arguments selecting through which node the listing is performed.
#[derive(Clone, Debug, PartialEq, Eq)]
pub struct ListCommand {
    /// Name of the node to perform the listing through, if one is chosen.
    pub node: Option<String>,
}

impl ListCommand {
    /// Entry point of the list operation: selects execution of exactly
    /// this operation, with these arguments and the forwarded options.
    pub fn run(self, options: CommandGlobalOpts) -> (r: Execution)
        ensures
            r == Execution::List(self, options),
    {
        Execution::List(self, options)
    }
}

} // verus!
