//! Arguments of the authenticate operation: present a one-time token to a
//! project's authority.

use vstd::prelude::*;
use crate::execution::Execution;
use crate::options::CommandGlobalOpts;

verus! {

/// Arguments carrying the one-time authentication token.
#[derive(Clone, Debug, PartialEq, Eq)]
pub struct AuthenticateCommand {
    /// One-time token presented to the authority.
    pub token: String,
}

impl AuthenticateCommand {
    /// Entry point of the authenticate operation: selects execution of
    /// exactly this operation, with these arguments and the forwarded
    /// options.
    pub fn run(self, options: CommandGlobalOpts) -> (r: Execution)
        ensures
            r == Execution::Authenticate(self, options),
    {
        Execution::Authenticate(self, options)
    }
}

} // verus!
