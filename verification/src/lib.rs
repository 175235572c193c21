//! Command-routing core for the `project` family of a multi-level CLI.
//!
//! A parsed invocation selects exactly one operation variant; dispatch maps
//! that variant to its operation's entry point, forwarding the shared global
//! options, and yields the one selected execution. Routing is total,
//! deterministic and exclusive: every variant has a case, equal invocations
//! select equal executions, and no call selects more or fewer than one
//! operation. The driver around the router performs the selected execution;
//! the operations' own work (network calls, credential handling, output) is
//! outside this core.

pub mod addon;
pub mod authenticate;
pub mod create;
pub mod delete;
pub mod enroll;
pub mod execution;
pub mod info;
pub mod list;
pub mod options;
pub mod project;
pub mod show;

pub use addon::AddonCommand;
pub use authenticate::AuthenticateCommand;
pub use create::CreateCommand;
pub use delete::DeleteCommand;
pub use enroll::EnrollCommand;
pub use execution::Execution;
pub use info::InfoCommand;
pub use list::ListCommand;
pub use options::CommandGlobalOpts;
pub use project::ProjectCommand;
pub use project::ProjectSubcommand;
pub use show::ShowCommand;
