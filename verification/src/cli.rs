//! What the command line asks for, and which shutdown follows from which
//! trigger.

use vstd::prelude::*;
use vstd::string::StringExecFns;

verus! {

/// The arguments of the `start` command.
#[derive(Clone, Debug)]
pub struct StartServerArgs {
    /// Configuration file path.
    pub path: String,
    /// Whether an interrupt lets the subservices drain.
    pub graceful_shutdown: bool,
}

/// The commands of the command line.
#[derive(Clone, Debug)]
pub enum SubCommands {
    /// Start the server.
    Start(StartServerArgs),
}

/// The command line as a whole.
#[derive(Clone, Debug)]
pub struct AppCli {
    pub command: Option<SubCommands>,
}

/// Why the command line leads to no run.
#[derive(Clone, Copy, Debug, PartialEq, Eq, Structural)]
pub enum CliError {
    /// No command asks for the server to be started.
    NotStarting,
}

impl CliError {
    /// The text of the error.
    pub fn message(&self) -> (m: String)
        ensures
            m@ == "not starting server"@,
    {
        String::from_str("not starting server")
    }
}

impl StartServerArgs {
    /// The configuration file that is read where the command line names none.
    pub fn default_path() -> (p: String)
        ensures
            p@ == "etc/api-server.yaml"@,
    {
        String::from_str("etc/api-server.yaml")
    }
}

impl AppCli {
    /// The arguments with which to start the server, where the command line
    /// asks for that.
    pub fn start_args(self) -> (r: Result<StartServerArgs, CliError>)
        ensures
            match self.command {
                Some(SubCommands::Start(args)) => r == Ok::<StartServerArgs, CliError>(args),
                None => r == Err::<StartServerArgs, CliError>(CliError::NotStarting),
            },
    {
        match self.command {
            Some(SubCommands::Start(args)) => Ok(args),
            None => Err(CliError::NotStarting),
        }
    }
}

/// What asked the process to end.
#[derive(Clone, Copy, Debug, PartialEq, Eq, Structural)]
pub enum ShutdownTrigger {
    /// An interactive interrupt.
    Interrupt,
    /// A termination request.
    Terminate,
}

/// How the subservices are brought down.
#[derive(Clone, Copy, Debug, PartialEq, Eq, Structural)]
pub enum ShutdownKind {
    /// Work in flight may finish, within a deadline.
    Graceful,
    /// Everything is cancelled at once.
    Forced,
}

/// The shutdown that a trigger leads to. A termination request always
/// forces; an interrupt lets the subservices drain where that was asked for.
pub open spec fn shutdown_for(trigger: ShutdownTrigger, graceful: bool) -> ShutdownKind {
    if trigger is Interrupt && graceful {
        ShutdownKind::Graceful
    } else {
        ShutdownKind::Forced
    }
}

/// Chooses the shutdown for the trigger that fired first.
pub fn choose_shutdown(trigger: ShutdownTrigger, graceful: bool) -> (kind: ShutdownKind)
    ensures
        kind == shutdown_for(trigger, graceful),
{
    match trigger {
        ShutdownTrigger::Interrupt => {
            if graceful {
                ShutdownKind::Graceful
            } else {
                ShutdownKind::Forced
            }
        },
        ShutdownTrigger::Terminate => ShutdownKind::Forced,
    }
}

/// A termination request forces the shutdown, whatever was asked for.
pub proof fn lemma_terminate_always_forces(graceful: bool)
    ensures
        shutdown_for(ShutdownTrigger::Terminate, graceful) is Forced,
{
}

} // verus!
