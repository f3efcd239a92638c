//! The external commands that the helper runs, named by their role.

use vstd::prelude::*;

verus! {

/// The unit of the service manager that the helper starts and restarts.
pub const SERVICE_UNIT: &'static str = "eruption.service";

/// The program that waits for the device subsystem to quiesce.
pub const DEVICE_MANAGER: &'static str = "/usr/bin/udevadm";

/// The service manager's control program.
pub const SERVICE_MANAGER: &'static str = "/usr/bin/systemctl";

/// An external command, by the role it plays.
#[derive(Clone, Copy, Debug, PartialEq, Eq, Structural)]
pub enum Command {
    /// Wait until the device subsystem has processed its pending events.
    Settle,
    /// Start the service.
    StartService,
    /// Restart the service.
    RestartService,
    /// Ask whether the service is active.
    QueryActive,
    /// Ask whether the system has finished booting.
    QueryBooted,
}

/// What is known of a command once it has been run. Only the exit status is
/// consulted, never the output.
#[derive(Clone, Copy, Debug, PartialEq, Eq, Structural)]
pub enum CommandStatus {
    /// The command ran and exited with status zero.
    Succeeded,
    /// The command ran and exited with a status other than zero.
    Failed,
    /// The command could not be run at all.
    NotSpawned,
}

impl Command {
    /// The path of the program that plays this role.
    pub open spec fn spec_program(self) -> Seq<char> {
        match self {
            Command::Settle => DEVICE_MANAGER@,
            _ => SERVICE_MANAGER@,
        }
    }

    /// The arguments that the program is given.
    pub open spec fn spec_arguments(self) -> Seq<Seq<char>> {
        match self {
            Command::Settle => seq!["settle"@],
            Command::StartService => seq!["start"@, SERVICE_UNIT@],
            Command::RestartService => seq!["restart"@, SERVICE_UNIT@],
            Command::QueryActive => seq!["is-active"@, SERVICE_UNIT@],
            Command::QueryBooted => seq!["is-system-running"@],
        }
    }

    /// The path of the program that plays this role.
    pub fn program(&self) -> (path: &'static str)
        ensures
            path@ == self.spec_program(),
    {
        match self {
            Command::Settle => DEVICE_MANAGER,
            _ => SERVICE_MANAGER,
        }
    }

    /// The arguments that the program is given, in order.
    pub fn arguments(&self) -> (args: Vec<&'static str>)
        ensures
            args.deep_view() == self.spec_arguments(),
    {
        let mut args: Vec<&'static str> = Vec::new();
        match self {
            Command::Settle => {
                args.push("settle");
            },
            Command::StartService => {
                args.push("start");
                args.push(SERVICE_UNIT);
            },
            Command::RestartService => {
                args.push("restart");
                args.push(SERVICE_UNIT);
            },
            Command::QueryActive => {
                args.push("is-active");
                args.push(SERVICE_UNIT);
            },
            Command::QueryBooted => {
                args.push("is-system-running");
            },
        }
        assert(args.deep_view() =~= self.spec_arguments());
        args
    }
}

} // verus!
