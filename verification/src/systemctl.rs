//! The seven service-control commands and how each is handed to `systemctl`.

use vstd::prelude::*;
use crate::gateway::{CommandOutput, Invocation, LaunchFailure};

verus! {

/// A service-control command, in the order in which the command list shows them.
#[derive(Clone, Copy, Debug, PartialEq, Eq, Structural)]
pub enum SystemctlCommand {
    Start,
    Stop,
    Restart,
    Reload,
    Status,
    Enable,
    Disable,
}

/// The number of service-control commands.
pub const COMMAND_COUNT: usize = 7;

/// The commands by their row in the command list.
pub open spec fn command_table() -> Seq<SystemctlCommand> {
    seq![
        SystemctlCommand::Start,
        SystemctlCommand::Stop,
        SystemctlCommand::Restart,
        SystemctlCommand::Reload,
        SystemctlCommand::Status,
        SystemctlCommand::Enable,
        SystemctlCommand::Disable,
    ]
}

/// What running a service-control command left to tell.
#[derive(Debug)]
pub enum Report {
    /// The command succeeded; this is what it printed.
    Info(String),
    /// The command failed; this is what it complained of.
    Error(String),
}

/// What is told of a command that could not be started.
pub open spec fn launch_failure_text() -> Seq<char> {
    "Failed to execute command"@
}

/// What is told of a command's outcome: its output when it succeeded, its
/// complaint when it failed, a fixed text when it never started.
pub open spec fn report_of(outcome: Result<CommandOutput, LaunchFailure>) -> (bool, Seq<char>) {
    match outcome {
        Ok(output) => if output.success {
            (true, output.stdout@)
        } else {
            (false, output.stderr@)
        },
        Err(_) => (false, launch_failure_text()),
    }
}

impl Report {
    /// Whether the report is informational, and its text.
    pub open spec fn view(self) -> (bool, Seq<char>) {
        match self {
            Report::Info(text) => (true, text@),
            Report::Error(text) => (false, text@),
        }
    }

    /// What to tell of the command's outcome.
    pub fn of(outcome: Result<CommandOutput, LaunchFailure>) -> (report: Report)
        ensures
            report@ == report_of(outcome),
    {
        match outcome {
            Ok(output) => {
                if output.success {
                    Report::Info(output.stdout)
                } else {
                    Report::Error(output.stderr)
                }
            },
            Err(_) => Report::Error(String::from_str("Failed to execute command")),
        }
    }
}

impl SystemctlCommand {
    /// The lowercase verb that `systemctl` knows the command by.
    pub open spec fn verb(self) -> Seq<char> {
        match self {
            SystemctlCommand::Start => "start"@,
            SystemctlCommand::Stop => "stop"@,
            SystemctlCommand::Restart => "restart"@,
            SystemctlCommand::Reload => "reload"@,
            SystemctlCommand::Status => "status"@,
            SystemctlCommand::Enable => "enable"@,
            SystemctlCommand::Disable => "disable"@,
        }
    }

    /// The label that the command list shows for the command.
    pub open spec fn label_text(self) -> Seq<char> {
        match self {
            SystemctlCommand::Start => "Start"@,
            SystemctlCommand::Stop => "Stop"@,
            SystemctlCommand::Restart => "Restart"@,
            SystemctlCommand::Reload => "Reload"@,
            SystemctlCommand::Status => "Status"@,
            SystemctlCommand::Enable => "Enable"@,
            SystemctlCommand::Disable => "Disable"@,
        }
    }

    /// All commands, by their row in the command list.
    pub fn all() -> (table: [SystemctlCommand; 7])
        ensures
            table@ == command_table(),
    {
        let table = [
            SystemctlCommand::Start,
            SystemctlCommand::Stop,
            SystemctlCommand::Restart,
            SystemctlCommand::Reload,
            SystemctlCommand::Status,
            SystemctlCommand::Enable,
            SystemctlCommand::Disable,
        ];
        assert(table@ =~= command_table());
        table
    }

    /// The lowercase verb that `systemctl` knows the command by.
    pub fn as_str(&self) -> (verb: &'static str)
        ensures
            verb@ == self.verb(),
    {
        match *self {
            SystemctlCommand::Start => "start",
            SystemctlCommand::Stop => "stop",
            SystemctlCommand::Restart => "restart",
            SystemctlCommand::Reload => "reload",
            SystemctlCommand::Status => "status",
            SystemctlCommand::Enable => "enable",
            SystemctlCommand::Disable => "disable",
        }
    }

    /// The label that the command list shows for the command.
    pub fn label(&self) -> (label: &'static str)
        ensures
            label@ == self.label_text(),
    {
        match *self {
            SystemctlCommand::Start => "Start",
            SystemctlCommand::Stop => "Stop",
            SystemctlCommand::Restart => "Restart",
            SystemctlCommand::Reload => "Reload",
            SystemctlCommand::Status => "Status",
            SystemctlCommand::Enable => "Enable",
            SystemctlCommand::Disable => "Disable",
        }
    }

    /// How the command is run: `systemctl`, the verb, and the service's name.
    pub fn invocation(&self) -> (inv: Invocation)
        ensures
            inv.program_text() == "systemctl"@,
            inv.arg_texts() == seq![self.verb(), "nginx"@],
    {
        Invocation::with_two_args("systemctl", self.as_str(), "nginx")
    }
}

} // verus!
