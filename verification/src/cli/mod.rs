//! The command surface: what the user can ask for, and where each request goes.
pub mod command;

use crate::cli::command::{finish, plan_of, shell, shell_command};
use crate::docker::client::{appended, extends, DockerClient, Session};
use crate::docker::error::Error;
use crate::docker::lifecycle::{follow, Phase};
use crate::project::Project;
use vstd::prelude::*;

verus! {

/// A parsed command line.
#[derive(Debug, Clone, PartialEq, Eq)]
pub struct Cli {
    /// The command asked for.
    pub cmds: Commands,
    /// The project's root directory; `.` where the user names none.
    pub root: String,
}

/// The commands.
#[derive(Debug, Clone, PartialEq, Eq)]
pub enum Commands {
    /// Open a shell in the project's container.
    Shell {
        /// The project's root directory.
        root: String,
        /// Whether to stop the container after the shell exits.
        stop: bool,
    },
}

impl Commands {
    /// The root directory of the project the command is about.
    pub fn root(&self) -> (root: &str)
        ensures
            self matches Commands::Shell { root: r, .. } && root@ == r@,
    {
        match self {
            Commands::Shell { root, .. } => root.as_str(),
        }
    }

    /// Whether the container is to be stopped once the command has ended.
    pub open spec fn stops(&self) -> bool {
        match *self {
            Commands::Shell { stop, .. } => stop,
        }
    }
}

/// Carries out the command that `cli` asks for, on `project`, which the
/// caller has loaded from the command's root directory.
pub fn run<C: DockerClient>(cli: &Cli, project: &Project, client: &mut Session<C>) -> (res: Result<
    (),
    Error,
>)
    ensures
        extends(final(client).log(), old(client).log()),
        follow(
            plan_of(project@, shell_command(), cli.cmds.stops()),
            Phase::Resolve,
            appended(old(client).log(), final(client).log()),
        ) == finish(res),
{
    match &cli.cmds {
        Commands::Shell { stop, .. } => shell(project, client, *stop),
    }
}

} // verus!
