//! The command that starts the resolved server.

use crate::error::{ResolveError, ResolveErrorView};
use vstd::prelude::*;

verus! {

/// A program to start, with its arguments and environment.
#[derive(Clone, Debug, PartialEq, Eq)]
pub struct LaunchCommand {
    pub command: String,
    pub args: Vec<String>,
    pub env: Vec<(String, String)>,
}

pub struct LaunchCommandView {
    pub command: Seq<char>,
    pub args: Seq<Seq<char>>,
    pub env: Seq<(Seq<char>, Seq<char>)>,
}

impl View for LaunchCommand {
    type V = LaunchCommandView;

    open spec fn view(&self) -> LaunchCommandView {
        LaunchCommandView {
            command: self.command@,
            args: Seq::new(self.args@.len(), |i: int| self.args@[i]@),
            env: Seq::new(self.env@.len(), |i: int| (self.env@[i].0@, self.env@[i].1@)),
        }
    }
}

/// The command that runs `program` with no argument and nothing added to
/// the environment.
pub open spec fn bare_command(program: Seq<char>) -> LaunchCommandView {
    LaunchCommandView { command: program, args: Seq::empty(), env: Seq::empty() }
}

/// What the host is handed at the end: the command for a path, the
/// message for an error.
pub open spec fn command_or_message(outcome: Result<Seq<char>, ResolveErrorView>) -> Result<
    LaunchCommandView,
    Seq<char>,
> {
    match outcome {
        Ok(path) => Ok(bare_command(path)),
        Err(error) => Err(error.message()),
    }
}

/// Calls `zed_extension_api::process::Command::new` and hands its three
/// fields out. That constructor stores the program as the command and
/// starts with empty lists of arguments and of environment entries, which
/// is what the contract claims.
#[verifier::external_body]
fn new_host_command(program: String) -> (parts: (String, Vec<String>, Vec<(String, String)>))
    ensures
        parts.0@ == program@,
        parts.1@.len() == 0,
        parts.2@.len() == 0,
{
    let command = zed_extension_api::process::Command::new(program);
    (command.command, command.args, command.env)
}

/// The command that starts the server at `path`.
pub fn launch_command(path: String) -> (command: LaunchCommand)
    ensures
        command@ == bare_command(path@),
{
    let (command, args, env) = new_host_command(path);
    let command = LaunchCommand { command, args, env };
    assert(command@.args =~= Seq::empty());
    assert(command@.env =~= Seq::empty());
    command
}

/// Turns the end of a resolution into what the host expects: the launch
/// command for the resolved path, or the error as text.
pub fn language_server_command(outcome: Result<String, ResolveError>) -> (answer: Result<
    LaunchCommand,
    String,
>)
    ensures
        command_or_message(
            match outcome {
                Ok(path) => Ok(path@),
                Err(error) => Err(error@),
            },
        ) == (match answer {
            Ok(command) => Ok(command@),
            Err(message) => Err(message@),
        }),
{
    match outcome {
        Ok(path) => Ok(launch_command(path)),
        Err(error) => Err(error.message()),
    }
}

} // verus!
