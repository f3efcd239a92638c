//! Where the helper writes its log, and at which level.
//!
//! Started from a terminal the helper logs to the console; started by the
//! device subsystem it logs to the system log, at the level that the
//! environment names.

use vstd::prelude::*;
use vstd::string::*;

verus! {

/// The name of a level that is used where the environment names none.
pub const DEFAULT_LEVEL: &'static str = "info";

/// The most detailed level that is still logged.
#[derive(Clone, Copy, Debug, PartialEq, Eq, Structural)]
pub enum LogLevel {
    Off,
    Error,
    Warn,
    Info,
    Debug,
    Trace,
}

/// A level, and whether the name it was read from was none of the known
/// ones, in which case the level is `Info`.
#[derive(Clone, Copy, Debug, PartialEq, Eq, Structural)]
pub struct LevelChoice {
    pub level: LogLevel,
    pub unrecognized: bool,
}

/// How logging is set up.
#[derive(Clone, Copy, Debug, PartialEq, Eq, Structural)]
pub enum LogSetup {
    /// Log to the console, filtered as the environment says.
    Console,
    /// Log to the console at the default level: the environment says nothing.
    ConsoleWithDefault,
    /// Log to the system log at this level.
    Syslog(LevelChoice),
}

/// The lowercase equivalent of `text`, as `str::to_lowercase` computes it.
pub uninterp spec fn lowercase(text: Seq<char>) -> Seq<char>;

/// `str::to_lowercase` of the standard library: the result is the lowercase
/// equivalent of the argument. What that is for a given text is not stated
/// here; it depends on the text alone.
#[verifier::external_body]
fn to_lowercase(text: &str) -> (lowered: String)
    ensures
        lowered@ == lowercase(text@),
{
    text.to_lowercase()
}

impl LevelChoice {
    /// The level that a name in lower case stands for. A name that is none
    /// of the six known ones stands for `Info` and is marked.
    pub open spec fn spec_from_lowercase(name: Seq<char>) -> LevelChoice {
        if name == "off"@ {
            LevelChoice { level: LogLevel::Off, unrecognized: false }
        } else if name == "error"@ {
            LevelChoice { level: LogLevel::Error, unrecognized: false }
        } else if name == "warn"@ {
            LevelChoice { level: LogLevel::Warn, unrecognized: false }
        } else if name == "info"@ {
            LevelChoice { level: LogLevel::Info, unrecognized: false }
        } else if name == "debug"@ {
            LevelChoice { level: LogLevel::Debug, unrecognized: false }
        } else if name == "trace"@ {
            LevelChoice { level: LogLevel::Trace, unrecognized: false }
        } else {
            LevelChoice { level: LogLevel::Info, unrecognized: true }
        }
    }

    /// Reads a level from its name in lower case.
    pub fn from_lowercase(name: &str) -> (choice: LevelChoice)
        ensures
            choice == Self::spec_from_lowercase(name@),
    {
        let name = String::from_str(name);
        if name == String::from_str("off") {
            LevelChoice { level: LogLevel::Off, unrecognized: false }
        } else if name == String::from_str("error") {
            LevelChoice { level: LogLevel::Error, unrecognized: false }
        } else if name == String::from_str("warn") {
            LevelChoice { level: LogLevel::Warn, unrecognized: false }
        } else if name == String::from_str("info") {
            LevelChoice { level: LogLevel::Info, unrecognized: false }
        } else if name == String::from_str("debug") {
            LevelChoice { level: LogLevel::Debug, unrecognized: false }
        } else if name == String::from_str("trace") {
            LevelChoice { level: LogLevel::Trace, unrecognized: false }
        } else {
            LevelChoice { level: LogLevel::Info, unrecognized: true }
        }
    }

    /// Reads a level from its name, in whatever case it is written: the
    /// level that the name's lowercase equivalent stands for.
    pub fn parse(name: &str) -> (choice: LevelChoice)
        ensures
            choice == Self::spec_from_lowercase(lowercase(name@)),
    {
        let lowered = to_lowercase(name);
        Self::from_lowercase(lowered.as_str())
    }
}

impl LogSetup {
    /// How logging is set up, given whether the helper was started from a
    /// terminal and what the environment says about the level.
    pub open spec fn spec_decide(is_terminal: bool, configured: Option<Seq<char>>) -> LogSetup {
        if is_terminal {
            if configured is Some {
                LogSetup::Console
            } else {
                LogSetup::ConsoleWithDefault
            }
        } else {
            match configured {
                Some(name) => LogSetup::Syslog(LevelChoice::spec_from_lowercase(lowercase(name))),
                None => LogSetup::Syslog(LevelChoice::spec_from_lowercase(DEFAULT_LEVEL@)),
            }
        }
    }

    /// Decides how logging is set up. On a terminal the console is used,
    /// with the default level where the environment names none. Elsewhere
    /// the system log is used, at the level that the environment names, or
    /// at the default level where it names none.
    pub fn decide(is_terminal: bool, configured: Option<&str>) -> (setup: LogSetup)
        ensures
            setup == Self::spec_decide(
                is_terminal,
                match configured {
                    Some(name) => Some(name@),
                    None => None,
                },
            ),
    {
        if is_terminal {
            match configured {
                Some(_) => LogSetup::Console,
                None => LogSetup::ConsoleWithDefault,
            }
        } else {
            match configured {
                Some(name) => LogSetup::Syslog(LevelChoice::parse(name)),
                None => LogSetup::Syslog(LevelChoice::from_lowercase(DEFAULT_LEVEL)),
            }
        }
    }
}

} // verus!
