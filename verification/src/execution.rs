//! The routing decision: which single operation runs, with which arguments
//! and which global options.

use vstd::prelude::*;
use crate::addon::AddonCommand;
use crate::authenticate::AuthenticateCommand;
use crate::create::CreateCommand;
use crate::delete::DeleteCommand;
use crate::enroll::EnrollCommand;
use crate::info::InfoCommand;
use crate::list::ListCommand;
use crate::options::CommandGlobalOpts;
use crate::show::ShowCommand;

verus! {

/// The one execution a dispatch call selects. A value of this type names
/// exactly one operation, carries that operation's own arguments unchanged,
/// and carries the global options that were forwarded to it. The driver
/// around the router performs the named operation; the router only selects
/// it.
#[derive(Clone, Debug, PartialEq, Eq)]
pub enum Execution {
    Create(CreateCommand, CommandGlobalOpts),
    Delete(DeleteCommand, CommandGlobalOpts),
    List(ListCommand, CommandGlobalOpts),
    Show(ShowCommand, CommandGlobalOpts),
    Information(InfoCommand, CommandGlobalOpts),
    Enroll(EnrollCommand, CommandGlobalOpts),
    Addon(AddonCommand, CommandGlobalOpts),
    Authenticate(AuthenticateCommand, CommandGlobalOpts),
}

impl Execution {
    /// The global options this execution forwards to its operation.
    pub open spec fn spec_options(self) -> CommandGlobalOpts {
        match self {
            Execution::Create(_, o) => o,
            Execution::Delete(_, o) => o,
            Execution::List(_, o) => o,
            Execution::Show(_, o) => o,
            Execution::Information(_, o) => o,
            Execution::Enroll(_, o) => o,
            Execution::Addon(_, o) => o,
            Execution::Authenticate(_, o) => o,
        }
    }

    /// Returns the global options this execution forwards to its operation.
    pub fn options(&self) -> (r: CommandGlobalOpts)
        ensures
            r == self.spec_options(),
    {
        match self {
            Execution::Create(_, o) => *o,
            Execution::Delete(_, o) => *o,
            Execution::List(_, o) => *o,
            Execution::Show(_, o) => *o,
            Execution::Information(_, o) => *o,
            Execution::Enroll(_, o) => *o,
            Execution::Addon(_, o) => *o,
            Execution::Authenticate(_, o) => *o,
        }
    }
}

} // verus!
