//! What the helper finds out about the system before it acts, and the
//! action that follows from it.

use vstd::prelude::*;
use crate::command::CommandStatus;
use crate::service::ServiceAction;

verus! {

/// Two facts about the system, found out anew by every invocation.
#[derive(Clone, Copy, Debug, PartialEq, Eq, Structural)]
pub struct SystemState {
    /// The system has not finished booting.
    pub is_booting: bool,
    /// The machine has just woken up from sleep: the sleep marker exists.
    pub resumed_from_sleep: bool,
}

impl SystemState {
    /// What is to be done with the service. After a wake-up it is started,
    /// whatever the boot state. Otherwise it is restarted, unless the system
    /// is still booting: then it is left alone.
    pub open spec fn spec_service_action(self) -> Option<ServiceAction> {
        if self.resumed_from_sleep {
            Some(ServiceAction::Start)
        } else if self.is_booting {
            None
        } else {
            Some(ServiceAction::Restart)
        }
    }

    /// Whether the system is still booting, as the status of the boot query
    /// tells it: yes where the query exited with a status other than zero, no
    /// where it exited with zero. A query that could not be run tells
    /// nothing, and no default takes its place.
    pub open spec fn spec_booting_from(status: CommandStatus) -> Option<bool> {
        match status {
            CommandStatus::Succeeded => Some(false),
            CommandStatus::Failed => Some(true),
            CommandStatus::NotSpawned => None,
        }
    }

    /// What is to be done with the service: `Some(Start)` after a wake-up,
    /// else `None` while the system is booting, else `Some(Restart)`.
    pub fn service_action(&self) -> (action: Option<ServiceAction>)
        ensures
            action == self.spec_service_action(),
    {
        if self.resumed_from_sleep {
            Some(ServiceAction::Start)
        } else if self.is_booting {
            None
        } else {
            Some(ServiceAction::Restart)
        }
    }

    /// Reads the status of the boot query: `Some(true)` if the system is
    /// still booting, `Some(false)` if it has finished, `None` if the query
    /// could not be run.
    pub fn booting_from(status: CommandStatus) -> (booting: Option<bool>)
        ensures
            booting == Self::spec_booting_from(status),
    {
        match status {
            CommandStatus::Succeeded => Some(false),
            CommandStatus::Failed => Some(true),
            CommandStatus::NotSpawned => None,
        }
    }
}

} // verus!
