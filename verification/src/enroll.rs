//! Arguments of the enroll operation: join a project with an enrollment
//! token.

use vstd::prelude::*;
use crate::execution::Execution;
use crate::options::CommandGlobalOpts;

verus! {

/// Arguments carrying the enrollment token, if one was supplied.
#[derive(Clone, Debug, PartialEq, Eq)]
pub struct EnrollCommand {
    /// Enrollment token issued by the project's authority.
    pub token: Option<String>,
}

impl EnrollCommand {
    /// Entry point of the enroll operation: selects execution of exactly
    /// this operation, with these arguments and the forwarded options.
    pub fn run(self, options: CommandGlobalOpts) -> (r: Execution)
        ensures
            r == Execution::Enroll(self, options),
    {
        Execution::Enroll(self, options)
    }
}

} // verus!
