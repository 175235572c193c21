//! Arguments of the addon operation: manage the addons configured on a
//! project.

use vstd::prelude::*;
use crate::execution::Execution;
use crate::options::CommandGlobalOpts;

verus! {

/// Arguments selecting which project's addons are managed.
#[derive(Clone, Debug, PartialEq, Eq)]
pub struct AddonCommand {
    /// Name of the project whose addons are managed.
    pub project_name: String,
}

impl AddonCommand {
    /// Entry point of the addon operation: selects execution of exactly
    /// this operation, with these arguments and the forwarded options.
    pub fn run(self, options: CommandGlobalOpts) -> (r: Execution)
        ensures
            r == Execution::Addon(self, options),
    {
        Execution::Addon(self, options)
    }
}

} // verus!
