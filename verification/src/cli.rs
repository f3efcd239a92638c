//! The command line of the helper, as plain values, and the errors that the
//! program itself can end with.

use vstd::prelude::*;
use vstd::string::*;

verus! {

/// An error that ends the program.
#[derive(Debug, PartialEq, Eq)]
pub enum MainError {
    /// Something failed that has no name of its own.
    UnknownError { description: String },
    /// The system log could not be set up with the level asked for.
    SyslogLevelError {},
}

/// The shells for which completions can be generated.
#[derive(Clone, Copy, Debug, PartialEq, Eq, Structural)]
pub enum CompletionsSubcommands {
    Bash,
    Elvish,
    Fish,
    PowerShell,
    Zsh,
}

/// What the helper was asked to do.
#[derive(Clone, Copy, Debug, PartialEq, Eq, Structural)]
pub enum Subcommands {
    /// Respond to a hotplug event.
    Hotplug,
    /// Generate shell completions.
    Completions { command: CompletionsSubcommands },
}

/// The arguments of one invocation.
#[derive(Clone, Copy, Debug, PartialEq, Eq, Structural)]
pub struct Options {
    /// How often the verbosity flag was given.
    pub verbose: u8,
    /// The subcommand.
    pub command: Subcommands,
}

impl MainError {
    /// The text of this error.
    pub open spec fn spec_message(self) -> Seq<char> {
        match self {
            MainError::UnknownError { description } => "Unknown error: "@ + description@,
            MainError::SyslogLevelError {  } => "Could not parse syslog log-level"@,
        }
    }

    /// The text of this error, as it is shown to the user.
    pub fn message(&self) -> (text: String)
        ensures
            text@ == self.spec_message(),
    {
        match self {
            MainError::UnknownError { description } => {
                String::from_str("Unknown error: ").concat(description.as_str())
            },
            MainError::SyslogLevelError {  } => String::from_str("Could not parse syslog log-level"),
        }
    }
}

impl Options {
    /// The options of an invocation that gave the verbosity flag `verbose`
    /// times and asked for `command`.
    pub fn new(verbose: u8, command: Subcommands) -> (options: Options)
        ensures
            options == (Options { verbose, command }),
    {
        Options { verbose, command }
    }

    /// Whether the invocation is a response to a hotplug event, and so runs
    /// the coordinator.
    pub fn is_hotplug(&self) -> (hotplug: bool)
        ensures
            hotplug == (self.command == Subcommands::Hotplug),
    {
        match self.command {
            Subcommands::Hotplug => true,
            Subcommands::Completions { .. } => false,
        }
    }
}

} // verus!
