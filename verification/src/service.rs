//! Driving the service: starting it, restarting it, and waiting until it
//! reports that it is active.

use vstd::prelude::*;
use crate::command::{Command, CommandStatus};

verus! {

/// The number of readiness queries that a fresh budget allows.
pub const MAX_ATTEMPTS: u32 = 5;

/// The pause after a readiness query that found the service not active yet,
/// in milliseconds.
pub const POLL_INTERVAL_MILLIS: u64 = 1000;

/// What the helper asks the service manager to do with the service.
#[derive(Clone, Copy, Debug, PartialEq, Eq, Structural)]
pub enum ServiceAction {
    /// Start the service: taken after the machine has woken up.
    Start,
    /// Restart the service: taken after a device has come or gone.
    Restart,
}

/// The result of one operation on the service.
#[derive(Clone, Copy, Debug, PartialEq, Eq, Structural)]
pub enum ServiceOutcome {
    /// The start command succeeded.
    Started,
    /// The restart command succeeded.
    Restarted,
    /// The service reported that it is active.
    Active,
    /// The service did not become active within the budget.
    TimedOut,
    /// A command failed, or could not be run.
    CommandFailed,
}

/// The attempts that a polling loop has, and how many of them are used up.
#[derive(Clone, Copy, Debug, PartialEq, Eq, Structural)]
pub struct RetryBudget {
    /// The number of queries after which the loop gives up.
    pub max_attempts: u32,
    /// The pause after a query that found the service not active yet.
    pub interval_millis: u64,
    /// The number of queries that found the service not active yet.
    pub attempted: u32,
}

/// What a polling loop does once a readiness query has been answered.
#[derive(Clone, Copy, Debug, PartialEq, Eq, Structural)]
pub enum PollStep {
    /// The loop ends with this outcome.
    Finished(ServiceOutcome),
    /// The loop pauses for the budget's interval, counts the attempt, and
    /// queries again if the budget allows it.
    Pause,
}

/// A polling loop that was played against recorded answers.
#[derive(Clone, Copy, Debug, PartialEq, Eq, Structural)]
pub struct PollRun {
    /// How the loop ended; `None` where the answers ran out before it did.
    pub outcome: Option<ServiceOutcome>,
    /// The budget as the loop left it.
    pub budget: RetryBudget,
    /// The number of readiness queries made.
    pub queries: usize,
    /// The number of pauses kept.
    pub pauses: usize,
}

impl ServiceAction {
    /// The command that carries this action out.
    pub open spec fn spec_command(self) -> Command {
        match self {
            ServiceAction::Start => Command::StartService,
            ServiceAction::Restart => Command::RestartService,
        }
    }

    /// The outcome of this action, given the status of its command. The
    /// command's failure is passed on as it is: any status but success is
    /// `CommandFailed`.
    pub open spec fn spec_outcome(self, status: CommandStatus) -> ServiceOutcome {
        if status != CommandStatus::Succeeded {
            ServiceOutcome::CommandFailed
        } else if self == ServiceAction::Start {
            ServiceOutcome::Started
        } else {
            ServiceOutcome::Restarted
        }
    }

    /// The command that carries this action out.
    pub fn command(&self) -> (command: Command)
        ensures
            command == self.spec_command(),
    {
        match self {
            ServiceAction::Start => Command::StartService,
            ServiceAction::Restart => Command::RestartService,
        }
    }

    /// The outcome of this action, given the status of its command.
    pub fn outcome(&self, status: CommandStatus) -> (outcome: ServiceOutcome)
        ensures
            outcome == self.spec_outcome(status),
            outcome == ServiceOutcome::CommandFailed <==> status != CommandStatus::Succeeded,
    {
        match status {
            CommandStatus::Succeeded => match self {
                ServiceAction::Start => ServiceOutcome::Started,
                ServiceAction::Restart => ServiceOutcome::Restarted,
            },
            _ => ServiceOutcome::CommandFailed,
        }
    }
}

impl RetryBudget {
    /// A budget never counts more attempts than it allows.
    pub open spec fn wf(self) -> bool {
        self.attempted <= self.max_attempts
    }

    /// The budget of a polling loop that has not queried yet.
    pub open spec fn spec_new() -> RetryBudget {
        RetryBudget { max_attempts: MAX_ATTEMPTS, interval_millis: POLL_INTERVAL_MILLIS, attempted: 0 }
    }

    /// The number of attempts that are left.
    pub open spec fn spec_remaining(self) -> nat {
        if self.attempted <= self.max_attempts {
            (self.max_attempts - self.attempted) as nat
        } else {
            0
        }
    }

    /// Whether no attempt is left.
    pub open spec fn spec_is_exhausted(self) -> bool {
        self.attempted >= self.max_attempts
    }

    /// The budget with one more attempt counted. A budget that is used up
    /// stays as it is.
    pub open spec fn spec_record_attempt(self) -> RetryBudget {
        if self.attempted < self.max_attempts {
            RetryBudget { attempted: (self.attempted + 1) as u32, ..self }
        } else {
            self
        }
    }

    /// The budget of a polling loop that has not queried yet: five attempts,
    /// one second apart.
    pub fn new() -> (budget: RetryBudget)
        ensures
            budget == Self::spec_new(),
            budget.wf(),
            budget.max_attempts == 5,
            budget.interval_millis == 1000,
            budget.attempted == 0,
    {
        RetryBudget { max_attempts: MAX_ATTEMPTS, interval_millis: POLL_INTERVAL_MILLIS, attempted: 0 }
    }

    /// The number of attempts that are left.
    pub fn remaining(&self) -> (left: u32)
        ensures
            left == self.spec_remaining(),
            self.wf() ==> left + self.attempted == self.max_attempts,
    {
        if self.attempted <= self.max_attempts {
            self.max_attempts - self.attempted
        } else {
            0
        }
    }

    /// Whether no attempt is left.
    pub fn is_exhausted(&self) -> (exhausted: bool)
        ensures
            exhausted == self.spec_is_exhausted(),
            exhausted <==> self.spec_remaining() == 0,
    {
        self.attempted >= self.max_attempts
    }

    /// Counts one more attempt. A budget that is used up stays as it is, so
    /// the count never passes the limit.
    pub fn record_attempt(&mut self)
        ensures
            *final(self) == old(self).spec_record_attempt(),
            final(self).max_attempts == old(self).max_attempts,
            final(self).interval_millis == old(self).interval_millis,
            old(self).wf() ==> final(self).wf(),
            !old(self).spec_is_exhausted() ==> final(self).attempted == old(self).attempted + 1,
            old(self).spec_is_exhausted() ==> final(self).attempted == old(self).attempted,
    {
        if self.attempted < self.max_attempts {
            self.attempted = self.attempted + 1;
        }
    }

    /// The budget with which the loop queries again after a pause, or `None`
    /// where the attempt that the pause followed was the last one.
    pub open spec fn spec_after_pause(self) -> Option<RetryBudget> {
        let counted = self.spec_record_attempt();
        if counted.spec_is_exhausted() {
            None
        } else {
            Some(counted)
        }
    }

    /// Counts the attempt that a pause followed, and says whether the loop
    /// goes on: `Some` with the budget for the next query, or `None` where
    /// the budget is used up and the loop ends as timed out.
    pub fn after_pause(self) -> (next: Option<RetryBudget>)
        ensures
            next == self.spec_after_pause(),
            next is None <==> self.attempted + 1 >= self.max_attempts,
            next matches Some(budget) ==> budget.attempted == self.attempted + 1
                && budget.max_attempts == self.max_attempts
                && budget.interval_millis == self.interval_millis && budget.wf(),
    {
        let mut counted = self;
        counted.record_attempt();
        if counted.is_exhausted() {
            None
        } else {
            Some(counted)
        }
    }
}

impl PollStep {
    /// What follows the answer to a readiness query. A service that is active
    /// ends the loop at once. One that is not active yet makes the loop
    /// pause. A query that could not be run ends the loop as failed: a broken
    /// channel does not mend by waiting.
    pub open spec fn spec_after_query(status: CommandStatus) -> PollStep {
        match status {
            CommandStatus::Succeeded => PollStep::Finished(ServiceOutcome::Active),
            CommandStatus::Failed => PollStep::Pause,
            CommandStatus::NotSpawned => PollStep::Finished(ServiceOutcome::CommandFailed),
        }
    }

    /// Decides what follows the answer to a readiness query.
    pub fn after_query(status: CommandStatus) -> (step: PollStep)
        ensures
            step == Self::spec_after_query(status),
    {
        match status {
            CommandStatus::Succeeded => PollStep::Finished(ServiceOutcome::Active),
            CommandStatus::Failed => PollStep::Pause,
            CommandStatus::NotSpawned => PollStep::Finished(ServiceOutcome::CommandFailed),
        }
    }
}

/// The number of queries after which a loop with this budget gives up: the
/// attempts that are left, and one where none is left, since the loop asks
/// before it counts.
pub open spec fn query_limit(budget: RetryBudget) -> nat {
    if budget.spec_remaining() == 0 {
        1
    } else {
        budget.spec_remaining()
    }
}

/// Polls until the service is active, against the answers that the service
/// manager gave, or would give, to one readiness query after another.
///
/// The loop asks, and ends at once where the service is active or the query
/// could not be run. Where the service is not active yet it pauses, counts
/// the attempt and asks again, until the budget is used up. So every query
/// but the last found the service not active; the last answer decides the
/// outcome; there are never more queries than `query_limit` allows, and a
/// loop that timed out made exactly that many, each followed by a pause.
pub fn poll_until_active(budget: RetryBudget, answers: &Vec<CommandStatus>) -> (run: PollRun)
    ensures
        run.queries <= answers.len(),
        run.queries <= query_limit(budget),
        forall|i: int| 0 <= i < run.queries - 1 ==> answers[i] == CommandStatus::Failed,
        match run.outcome {
            Some(ServiceOutcome::Active) => run.queries >= 1 && answers[run.queries - 1]
                == CommandStatus::Succeeded && run.pauses == run.queries - 1,
            Some(ServiceOutcome::CommandFailed) => run.queries >= 1 && answers[run.queries - 1]
                == CommandStatus::NotSpawned && run.pauses == run.queries - 1,
            Some(ServiceOutcome::TimedOut) => run.queries >= 1 && answers[run.queries - 1]
                == CommandStatus::Failed && run.queries == query_limit(budget) && run.pauses
                == run.queries,
            Some(_) => false,
            None => run.queries == answers.len() && run.queries < query_limit(budget) && (
            run.queries >= 1 ==> answers[run.queries - 1] == CommandStatus::Failed) && run.pauses
                == run.queries,
        },
        run.budget.max_attempts == budget.max_attempts,
        run.budget.interval_millis == budget.interval_millis,
        budget.spec_remaining() >= 1 ==> run.budget.attempted == budget.attempted + run.pauses,
        budget.spec_remaining() == 0 ==> run.budget == budget,
        budget.wf() ==> run.budget.wf(),
{
    let mut left = budget;
    let mut queries: usize = 0;
    let mut pauses: usize = 0;
    let mut outcome: Option<ServiceOutcome> = None;
    while queries < answers.len() && outcome.is_none()
        invariant
            queries <= answers.len(),
            queries <= query_limit(budget),
            forall|i: int| 0 <= i < queries - 1 ==> answers[i] == CommandStatus::Failed,
            left.max_attempts == budget.max_attempts,
            left.interval_millis == budget.interval_millis,
            budget.spec_remaining() >= 1 ==> left.attempted == budget.attempted + pauses,
            budget.spec_remaining() == 0 ==> left == budget,
            match outcome {
                Some(ServiceOutcome::Active) => queries >= 1 && answers[queries - 1]
                    == CommandStatus::Succeeded && pauses == queries - 1,
                Some(ServiceOutcome::CommandFailed) => queries >= 1 && answers[queries - 1]
                    == CommandStatus::NotSpawned && pauses == queries - 1,
                Some(ServiceOutcome::TimedOut) => queries >= 1 && answers[queries - 1]
                    == CommandStatus::Failed && queries == query_limit(budget) && pauses
                    == queries,
                Some(_) => false,
                None => queries < query_limit(budget) && (queries >= 1 ==> answers[queries - 1]
                    == CommandStatus::Failed) && pauses == queries,
            },
        decreases answers.len() - queries,
    {
        let status = answers[queries];
        queries = queries + 1;
        match PollStep::after_query(status) {
            PollStep::Finished(ended) => {
                outcome = Some(ended);
            },
            PollStep::Pause => {
                pauses = pauses + 1;
                match left.after_pause() {
                    Some(counted) => {
                        left = counted;
                    },
                    None => {
                        left.record_attempt();
                        outcome = Some(ServiceOutcome::TimedOut);
                    },
                }
            },
        }
    }
    PollRun { outcome, budget: left, queries, pauses }
}

} // verus!
