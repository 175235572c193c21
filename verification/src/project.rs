//! The command router: maps the selected subcommand variant to its
//! operation's entry point, forwarding the global options.

use vstd::prelude::*;
use crate::addon::AddonCommand;
use crate::authenticate::AuthenticateCommand;
use crate::create::CreateCommand;
use crate::delete::DeleteCommand;
use crate::enroll::EnrollCommand;
use crate::execution::Execution;
use crate::info::InfoCommand;
use crate::list::ListCommand;
use crate::options::CommandGlobalOpts;
use crate::show::ShowCommand;

verus! {

/// The closed set of operations of the project command family. Exactly one
/// variant is active per invocation; each variant owns its operation's
/// argument record.
#[derive(Clone, Debug, PartialEq, Eq)]
pub enum ProjectSubcommand {
    Create(CreateCommand),
    Delete(DeleteCommand),
    List(ListCommand),
    Show(ShowCommand),
    Information(InfoCommand),
    Enroll(EnrollCommand),
    Addon(AddonCommand),
    Authenticate(AuthenticateCommand),
}

/// One parsed invocation of the project command family: the user selected
/// this family and the one operation held in `subcommand`. Built by the
/// parsing layer, consumed by `run`, never re-dispatched.
#[derive(Clone, Debug, PartialEq, Eq)]
pub struct ProjectCommand {
    pub subcommand: ProjectSubcommand,
}

/// The execution that dispatching `cmd` with `options` selects: the one
/// matching the active variant, carrying that variant's own arguments and
/// the forwarded options. Total over the closed variant set, so no
/// invocation lacks a handler.
pub open spec fn selected_execution(
    cmd: ProjectCommand,
    options: CommandGlobalOpts,
) -> Execution {
    match cmd.subcommand {
        ProjectSubcommand::Create(c) => Execution::Create(c, options),
        ProjectSubcommand::Delete(c) => Execution::Delete(c, options),
        ProjectSubcommand::List(c) => Execution::List(c, options),
        ProjectSubcommand::Show(c) => Execution::Show(c, options),
        ProjectSubcommand::Information(c) => Execution::Information(c, options),
        ProjectSubcommand::Enroll(c) => Execution::Enroll(c, options),
        ProjectSubcommand::Addon(c) => Execution::Addon(c, options),
        ProjectSubcommand::Authenticate(c) => Execution::Authenticate(c, options),
    }
}

impl ProjectCommand {
    /// Builds the invocation the parsing layer hands to dispatch.
    pub fn new(subcommand: ProjectSubcommand) -> (r: ProjectCommand)
        ensures
            r.subcommand == subcommand,
    {
        ProjectCommand { subcommand }
    }

    /// Dispatch: route the invocation to the active variant's own entry
    /// point, forwarding `options` to it, and yield the one execution that
    /// entry point selected. The match is exhaustive over the closed
    /// variant set, so a variant added without a case here fails to build
    /// rather than falling through at run time.
    pub fn run(self, options: CommandGlobalOpts) -> (r: Execution)
        ensures
            r == selected_execution(self, options),
    {
        match self.subcommand {
            ProjectSubcommand::Create(c) => c.run(options),
            ProjectSubcommand::Delete(c) => c.run(options),
            ProjectSubcommand::List(c) => c.run(options),
            ProjectSubcommand::Show(c) => c.run(options),
            ProjectSubcommand::Enroll(c) => c.run(options),
            ProjectSubcommand::Information(c) => c.run(options),
            ProjectSubcommand::Addon(c) => c.run(options),
            ProjectSubcommand::Authenticate(c) => c.run(options),
        }
    }
}

/// Dispatch routes each variant to its own operation and to no other:
/// for every invocation and options, the selected execution is of the
/// create operation exactly when the invocation's active variant is the
/// create variant, and so on for each member of the closed set. Since the
/// invocation holds exactly one active variant, exactly one operation is
/// selected per call: never none, never two.
pub proof fn lemma_dispatch_exclusive(cmd: ProjectCommand, options: CommandGlobalOpts)
    ensures
        selected_execution(cmd, options) is Create <==> cmd.subcommand is Create,
        selected_execution(cmd, options) is Delete <==> cmd.subcommand is Delete,
        selected_execution(cmd, options) is List <==> cmd.subcommand is List,
        selected_execution(cmd, options) is Show <==> cmd.subcommand is Show,
        selected_execution(cmd, options) is Information <==> cmd.subcommand is Information,
        selected_execution(cmd, options) is Enroll <==> cmd.subcommand is Enroll,
        selected_execution(cmd, options) is Addon <==> cmd.subcommand is Addon,
        selected_execution(cmd, options) is Authenticate <==> cmd.subcommand is Authenticate,
{
}

/// Dispatch forwards each variant's own argument record and the given
/// options unchanged: the selected execution carries exactly what the
/// invocation and the call supplied.
pub proof fn lemma_dispatch_forwards_arguments(
    cmd: ProjectCommand,
    options: CommandGlobalOpts,
)
    ensures
        cmd.subcommand matches ProjectSubcommand::Create(c)
            ==> selected_execution(cmd, options) == Execution::Create(c, options),
        cmd.subcommand matches ProjectSubcommand::Delete(c)
            ==> selected_execution(cmd, options) == Execution::Delete(c, options),
        cmd.subcommand matches ProjectSubcommand::List(c)
            ==> selected_execution(cmd, options) == Execution::List(c, options),
        cmd.subcommand matches ProjectSubcommand::Show(c)
            ==> selected_execution(cmd, options) == Execution::Show(c, options),
        cmd.subcommand matches ProjectSubcommand::Information(c)
            ==> selected_execution(cmd, options) == Execution::Information(c, options),
        cmd.subcommand matches ProjectSubcommand::Enroll(c)
            ==> selected_execution(cmd, options) == Execution::Enroll(c, options),
        cmd.subcommand matches ProjectSubcommand::Addon(c)
            ==> selected_execution(cmd, options) == Execution::Addon(c, options),
        cmd.subcommand matches ProjectSubcommand::Authenticate(c)
            ==> selected_execution(cmd, options) == Execution::Authenticate(c, options),
        selected_execution(cmd, options).spec_options() == options,
{
}

/// Dispatch is deterministic: equal invocations with equal options select
/// equal executions, so the same variant always routes to the same
/// operation with the same forwarded data.
pub proof fn lemma_dispatch_deterministic(
    cmd1: ProjectCommand,
    cmd2: ProjectCommand,
    options1: CommandGlobalOpts,
    options2: CommandGlobalOpts,
)
    requires
        cmd1 == cmd2,
        options1 == options2,
    ensures
        selected_execution(cmd1, options1) == selected_execution(cmd2, options2),
{
}

} // verus!
