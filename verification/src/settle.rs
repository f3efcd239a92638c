//! Waiting for the device subsystem to settle.
//!
//! The wait is best effort. The settle command is run once and never
//! retried; whether it succeeds decides only how long the helper pauses
//! before it goes on.

use vstd::prelude::*;
use crate::command::CommandStatus;

verus! {

/// The pause after a settle command that succeeded. It absorbs the events
/// that complete just after the command has returned.
pub const SAFETY_DELAY_MILLIS: u64 = 500;

/// The pause that stands in for a settle command that failed.
pub const FALLBACK_DELAY_MILLIS: u64 = 2500;

/// How the devices were given time to settle.
#[derive(Clone, Copy, Debug, PartialEq, Eq, Structural)]
pub enum SettleOutcome {
    /// The settle command succeeded.
    Settled,
    /// The settle command failed, and a fixed pause replaces it.
    FallbackDelayed,
}

impl SettleOutcome {
    /// The outcome that a settle command's status stands for: `Settled` for a
    /// command that exited with zero, `FallbackDelayed` for every failure.
    pub open spec fn spec_from_status(status: CommandStatus) -> SettleOutcome {
        if status == CommandStatus::Succeeded {
            SettleOutcome::Settled
        } else {
            SettleOutcome::FallbackDelayed
        }
    }

    /// The pause that follows this outcome, in milliseconds.
    pub open spec fn spec_delay_millis(self) -> u64 {
        match self {
            SettleOutcome::Settled => SAFETY_DELAY_MILLIS,
            SettleOutcome::FallbackDelayed => FALLBACK_DELAY_MILLIS,
        }
    }

    /// Classifies the status of the settle command.
    pub fn from_status(status: CommandStatus) -> (outcome: SettleOutcome)
        ensures
            outcome == Self::spec_from_status(status),
            outcome == SettleOutcome::Settled <==> status == CommandStatus::Succeeded,
    {
        match status {
            CommandStatus::Succeeded => SettleOutcome::Settled,
            CommandStatus::Failed => SettleOutcome::FallbackDelayed,
            CommandStatus::NotSpawned => SettleOutcome::FallbackDelayed,
        }
    }

    /// The pause that follows this outcome, in milliseconds.
    pub fn delay_millis(&self) -> (millis: u64)
        ensures
            millis == self.spec_delay_millis(),
            *self == SettleOutcome::Settled ==> millis == 500,
            *self == SettleOutcome::FallbackDelayed ==> millis == 2500,
    {
        match self {
            SettleOutcome::Settled => SAFETY_DELAY_MILLIS,
            SettleOutcome::FallbackDelayed => FALLBACK_DELAY_MILLIS,
        }
    }
}

} // verus!
