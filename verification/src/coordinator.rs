//! The coordinator: one invocation of the helper, from taking the lock to
//! giving it back.
//!
//! An invocation is a `State`. Every state but `Done` has one step pending,
//! which the caller performs; the result of the step comes back as an
//! `Event`, and `step` gives the state that follows. The coordinator itself
//! never waits and never touches the system.

use vstd::prelude::*;
use crate::command::{Command, CommandStatus};
use crate::lock::LockError;
use crate::probe::SystemState;
use crate::service::{PollStep, RetryBudget, ServiceAction, ServiceOutcome};
use crate::settle::SettleOutcome;

verus! {

/// How an invocation ended.
#[derive(Clone, Copy, Debug, PartialEq, Eq, Structural)]
pub enum Outcome {
    /// Nothing went wrong: the service is active, or the system is still
    /// booting and the service was left alone.
    Success,
    /// The service did not become active in time.
    Timeout,
    /// A command failed, or could not be run, and the steps after it were
    /// skipped.
    CommandFailed,
    /// Another invocation holds the lock.
    LockTaken,
    /// The lock file could not be created.
    FatalIoError,
}

/// Where an invocation stands. Each state but `Done` waits for the result of
/// the step that `pending` names.
#[derive(Clone, Copy, Debug, PartialEq, Eq, Structural)]
pub enum State {
    /// Nothing has happened yet; the lock is to be taken.
    Idle,
    /// The lock is held; the sleep marker is to be looked for.
    LockAcquired,
    /// The machine did not wake up from sleep, so a device has come or gone;
    /// the system is to be asked whether it has finished booting.
    HotplugBranch,
    /// The devices are to settle. The action is the one that follows: `Start`
    /// after a wake-up, `Restart` after a hotplug event.
    Settling(ServiceAction),
    /// The settle command has returned; the pause after it is to be kept.
    Settled(ServiceAction, SettleOutcome),
    /// The service is to be started or restarted.
    ServiceActing(ServiceAction),
    /// The service has been acted on; it is to be asked whether it is active.
    Polling(ServiceAction, RetryBudget),
    /// The service was not active yet; the pause between two queries is to be
    /// kept.
    Backoff(ServiceAction, RetryBudget),
    /// The work is over; the lock is to be released.
    Releasing(Outcome),
    /// The invocation has ended.
    Done(Outcome),
}

/// A step that the caller performs for the coordinator.
#[derive(Clone, Copy, Debug, PartialEq, Eq, Structural)]
pub enum Action {
    /// Create the lock file, without waiting for it.
    AcquireLock,
    /// Look whether the sleep marker exists.
    ProbeSleepSentinel,
    /// Run a command and wait for it to exit.
    Run(Command),
    /// Sleep for this many milliseconds.
    Sleep(u64),
    /// Remove the lock file.
    ReleaseLock,
}

/// The result of a step.
#[derive(Clone, Copy, Debug, PartialEq, Eq, Structural)]
pub enum Event {
    /// The lock file was created.
    LockGranted,
    /// The lock file was not created.
    LockRefused(LockError),
    /// The sleep marker was looked for; `true` if it exists.
    SleepSentinel(bool),
    /// A command was run, or could not be.
    Exited(CommandStatus),
    /// The sleep is over.
    Elapsed,
    /// The lock file was to be removed; `true` if it was.
    LockReleased(bool),
}

/// How much a notice matters.
#[derive(Clone, Copy, Debug, PartialEq, Eq, Structural)]
pub enum Level {
    /// Something failed.
    Error,
    /// Something unusual happened that is no failure.
    Warn,
    /// Normal progress.
    Info,
}

/// What the caller writes to its log when a step has been taken.
#[derive(Clone, Copy, Debug, PartialEq, Eq, Structural)]
pub enum Notice {
    /// Another invocation holds the lock.
    LockContended,
    /// The lock file could not be created.
    LockFileError,
    /// The machine has woken up from sleep.
    WakingUp,
    /// A device has come or gone.
    HotplugTriggered,
    /// The system has finished booting; the devices are given time to settle.
    AwaitingSettle,
    /// The system is still booting; the service is left alone.
    StillBooting,
    /// The system could not be asked whether it has finished booting.
    BootStateUnknown,
    /// The devices have settled.
    DevicesSettled,
    /// The settle command failed.
    SettleFailed,
    /// The service is about to be started or restarted.
    ServiceRequested(ServiceAction),
    /// The service was started or restarted; it is waited for.
    AwaitingReadiness,
    /// The service could not be started or restarted.
    ServiceCommandFailed(ServiceAction),
    /// The service is active.
    ServiceReady(ServiceAction),
    /// The service could not be asked whether it is active.
    ReadinessQueryFailed,
    /// The service did not become active in time.
    PollTimedOut(ServiceAction),
    /// The lock file could not be removed.
    ReleaseFailed,
}

/// What follows an event: the next state, and what there is to log.
#[derive(Clone, Copy, Debug, PartialEq, Eq)]
pub struct Transition {
    pub next: State,
    pub notice: Option<Notice>,
}

impl Outcome {
    /// The outcome that the end of a polling loop, or a failed action on the
    /// service, stands for.
    pub open spec fn spec_from_service(outcome: ServiceOutcome) -> Outcome {
        match outcome {
            ServiceOutcome::TimedOut => Outcome::Timeout,
            ServiceOutcome::CommandFailed => Outcome::CommandFailed,
            _ => Outcome::Success,
        }
    }

    /// Whether an invocation that ends like this has held the lock.
    pub open spec fn spec_held_lock(self) -> bool {
        self != Outcome::LockTaken && self != Outcome::FatalIoError
    }

    /// The status with which the process exits: zero for every outcome that
    /// the helper handles, one where the lock file could not be created.
    pub open spec fn spec_exit_code(self) -> i32 {
        if self == Outcome::FatalIoError {
            1
        } else {
            0
        }
    }

    /// The outcome that the end of a polling loop, or a failed action on the
    /// service, stands for.
    pub fn from_service(outcome: ServiceOutcome) -> (result: Outcome)
        ensures
            result == Self::spec_from_service(outcome),
    {
        match outcome {
            ServiceOutcome::TimedOut => Outcome::Timeout,
            ServiceOutcome::CommandFailed => Outcome::CommandFailed,
            ServiceOutcome::Started => Outcome::Success,
            ServiceOutcome::Restarted => Outcome::Success,
            ServiceOutcome::Active => Outcome::Success,
        }
    }

    /// Whether an invocation that ends like this has held the lock.
    pub fn held_lock(&self) -> (held: bool)
        ensures
            held == self.spec_held_lock(),
    {
        match self {
            Outcome::LockTaken => false,
            Outcome::FatalIoError => false,
            _ => true,
        }
    }

    /// The status with which the process exits.
    pub fn exit_code(&self) -> (code: i32)
        ensures
            code == self.spec_exit_code(),
            code != 0 <==> *self == Outcome::FatalIoError,
    {
        match self {
            Outcome::FatalIoError => 1,
            _ => 0,
        }
    }
}

impl Action {
    /// Whether `event` is a result that this step can have.
    pub open spec fn spec_answered_by(self, event: Event) -> bool {
        match self {
            Action::AcquireLock => event is LockGranted || event is LockRefused,
            Action::ProbeSleepSentinel => event is SleepSentinel,
            Action::Run(_) => event is Exited,
            Action::Sleep(_) => event is Elapsed,
            Action::ReleaseLock => event is LockReleased,
        }
    }

    /// Whether `event` is a result that this step can have.
    pub fn answered_by(&self, event: Event) -> (fits: bool)
        ensures
            fits == self.spec_answered_by(event),
    {
        match (self, event) {
            (Action::AcquireLock, Event::LockGranted) => true,
            (Action::AcquireLock, Event::LockRefused(_)) => true,
            (Action::ProbeSleepSentinel, Event::SleepSentinel(_)) => true,
            (Action::Run(_), Event::Exited(_)) => true,
            (Action::Sleep(_), Event::Elapsed) => true,
            (Action::ReleaseLock, Event::LockReleased(_)) => true,
            _ => false,
        }
    }
}

impl Notice {
    /// How much this notice matters. Every failure is an error, but for a
    /// lock that another invocation holds, which is a warning.
    pub open spec fn spec_level(self) -> Level {
        match self {
            Notice::LockContended => Level::Warn,
            Notice::LockFileError => Level::Error,
            Notice::BootStateUnknown => Level::Error,
            Notice::SettleFailed => Level::Error,
            Notice::ServiceCommandFailed(_) => Level::Error,
            Notice::ReadinessQueryFailed => Level::Error,
            Notice::PollTimedOut(_) => Level::Error,
            Notice::ReleaseFailed => Level::Error,
            _ => Level::Info,
        }
    }

    /// The line that is written to the log.
    pub open spec fn spec_message(self) -> Seq<char> {
        match self {
            Notice::LockContended => "We have been invoked while holding a global lock, exiting now"@,
            Notice::LockFileError => "An error occurred while creating the lock file"@,
            Notice::WakingUp => "Waking up from system sleep, waiting for the devices to settle..."@,
            Notice::HotplugTriggered => "A hotplug event has been triggered, notifying the Eruption daemon..."@,
            Notice::AwaitingSettle => "Waiting for the devices to settle..."@,
            Notice::StillBooting => "System is still booting, skipping restart of Eruption"@,
            Notice::BootStateUnknown => "Could not determine whether the system is still booting"@,
            Notice::DevicesSettled => "Done, all devices have settled"@,
            Notice::SettleFailed => "udevadm settle has failed"@,
            Notice::ServiceRequested(ServiceAction::Start) => "Now starting the eruption.service..."@,
            Notice::ServiceRequested(ServiceAction::Restart) => "Now restarting the eruption.service..."@,
            Notice::AwaitingReadiness => "Waiting for Eruption to be fully operational..."@,
            Notice::ServiceCommandFailed(ServiceAction::Start) => "Could not start Eruption, an error occurred"@,
            Notice::ServiceCommandFailed(ServiceAction::Restart) => "Could not notify Eruption, an error occurred"@,
            Notice::ServiceReady(ServiceAction::Start) => "Eruption has been started successfully, exiting now"@,
            Notice::ServiceReady(ServiceAction::Restart) => "Notification sent successfully, exiting now"@,
            Notice::ReadinessQueryFailed => "Error while waiting for Eruption to start"@,
            Notice::PollTimedOut(ServiceAction::Start) => "Timeout while starting eruption.service"@,
            Notice::PollTimedOut(ServiceAction::Restart) => "Timeout while restarting eruption.service"@,
            Notice::ReleaseFailed => "Could not remove the lock file"@,
        }
    }

    /// The line that is written to the log for this notice.
    pub fn message(&self) -> (text: &'static str)
        ensures
            text@ == self.spec_message(),
    {
        match self {
            Notice::LockContended => "We have been invoked while holding a global lock, exiting now",
            Notice::LockFileError => "An error occurred while creating the lock file",
            Notice::WakingUp => "Waking up from system sleep, waiting for the devices to settle...",
            Notice::HotplugTriggered => "A hotplug event has been triggered, notifying the Eruption daemon...",
            Notice::AwaitingSettle => "Waiting for the devices to settle...",
            Notice::StillBooting => "System is still booting, skipping restart of Eruption",
            Notice::BootStateUnknown => "Could not determine whether the system is still booting",
            Notice::DevicesSettled => "Done, all devices have settled",
            Notice::SettleFailed => "udevadm settle has failed",
            Notice::ServiceRequested(ServiceAction::Start) => "Now starting the eruption.service...",
            Notice::ServiceRequested(ServiceAction::Restart) => "Now restarting the eruption.service...",
            Notice::AwaitingReadiness => "Waiting for Eruption to be fully operational...",
            Notice::ServiceCommandFailed(ServiceAction::Start) => "Could not start Eruption, an error occurred",
            Notice::ServiceCommandFailed(ServiceAction::Restart) => "Could not notify Eruption, an error occurred",
            Notice::ServiceReady(ServiceAction::Start) => "Eruption has been started successfully, exiting now",
            Notice::ServiceReady(ServiceAction::Restart) => "Notification sent successfully, exiting now",
            Notice::ReadinessQueryFailed => "Error while waiting for Eruption to start",
            Notice::PollTimedOut(ServiceAction::Start) => "Timeout while starting eruption.service",
            Notice::PollTimedOut(ServiceAction::Restart) => "Timeout while restarting eruption.service",
            Notice::ReleaseFailed => "Could not remove the lock file",
        }
    }

    /// How much this notice matters.
    pub fn level(&self) -> (level: Level)
        ensures
            level == self.spec_level(),
    {
        match self {
            Notice::LockContended => Level::Warn,
            Notice::LockFileError => Level::Error,
            Notice::BootStateUnknown => Level::Error,
            Notice::SettleFailed => Level::Error,
            Notice::ServiceCommandFailed(_) => Level::Error,
            Notice::ReadinessQueryFailed => Level::Error,
            Notice::PollTimedOut(_) => Level::Error,
            Notice::ReleaseFailed => Level::Error,
            Notice::WakingUp => Level::Info,
            Notice::HotplugTriggered => Level::Info,
            Notice::AwaitingSettle => Level::Info,
            Notice::StillBooting => Level::Info,
            Notice::DevicesSettled => Level::Info,
            Notice::ServiceRequested(_) => Level::Info,
            Notice::AwaitingReadiness => Level::Info,
            Notice::ServiceReady(_) => Level::Info,
        }
    }
}

impl State {
    /// The step that this state waits for; `None` once the invocation has
    /// ended.
    pub open spec fn spec_pending(self) -> Option<Action> {
        match self {
            State::Idle => Some(Action::AcquireLock),
            State::LockAcquired => Some(Action::ProbeSleepSentinel),
            State::HotplugBranch => Some(Action::Run(Command::QueryBooted)),
            State::Settling(_) => Some(Action::Run(Command::Settle)),
            State::Settled(_, outcome) => Some(Action::Sleep(outcome.spec_delay_millis())),
            State::ServiceActing(action) => Some(Action::Run(action.spec_command())),
            State::Polling(_, _) => Some(Action::Run(Command::QueryActive)),
            State::Backoff(_, budget) => Some(Action::Sleep(budget.interval_millis)),
            State::Releasing(_) => Some(Action::ReleaseLock),
            State::Done(_) => None,
        }
    }

    /// Whether the invocation holds the lock in this state: from the moment
    /// the lock file was created until the attempt to remove it has returned.
    pub open spec fn spec_holds_lock(self) -> bool {
        !(self is Idle) && !(self is Done)
    }

    /// Whether `event` is a result that the pending step can have.
    pub open spec fn spec_accepts(self, event: Event) -> bool {
        match self.spec_pending() {
            Some(action) => action.spec_answered_by(event),
            None => false,
        }
    }

    /// What follows `event` in this state; `None` where the event is no
    /// result of the pending step.
    pub open spec fn spec_step(self, event: Event) -> Option<Transition> {
        match (self, event) {
            (State::Idle, Event::LockGranted) => Some(
                Transition { next: State::LockAcquired, notice: None },
            ),
            (State::Idle, Event::LockRefused(LockError::LockTaken)) => Some(
                Transition {
                    next: State::Done(Outcome::LockTaken),
                    notice: Some(Notice::LockContended),
                },
            ),
            (State::Idle, Event::LockRefused(LockError::Io)) => Some(
                Transition {
                    next: State::Done(Outcome::FatalIoError),
                    notice: Some(Notice::LockFileError),
                },
            ),
            (State::LockAcquired, Event::SleepSentinel(present)) => Some(
                if present {
                    Transition {
                        next: State::Settling(ServiceAction::Start),
                        notice: Some(Notice::WakingUp),
                    }
                } else {
                    Transition { next: State::HotplugBranch, notice: Some(Notice::HotplugTriggered) }
                },
            ),
            (State::HotplugBranch, Event::Exited(status)) => Some(
                match SystemState::spec_booting_from(status) {
                    None => Transition {
                        next: State::Releasing(Outcome::CommandFailed),
                        notice: Some(Notice::BootStateUnknown),
                    },
                    Some(is_booting) => {
                        let system = SystemState { is_booting, resumed_from_sleep: false };
                        match system.spec_service_action() {
                            Some(action) => Transition {
                                next: State::Settling(action),
                                notice: Some(Notice::AwaitingSettle),
                            },
                            None => Transition {
                                next: State::Releasing(Outcome::Success),
                                notice: Some(Notice::StillBooting),
                            },
                        }
                    },
                },
            ),
            (State::Settling(action), Event::Exited(status)) => {
                let outcome = SettleOutcome::spec_from_status(status);
                Some(
                    Transition {
                        next: State::Settled(action, outcome),
                        notice: Some(
                            if outcome == SettleOutcome::Settled {
                                Notice::DevicesSettled
                            } else {
                                Notice::SettleFailed
                            },
                        ),
                    },
                )
            },
            (State::Settled(action, _), Event::Elapsed) => Some(
                Transition {
                    next: State::ServiceActing(action),
                    notice: Some(Notice::ServiceRequested(action)),
                },
            ),
            (State::ServiceActing(action), Event::Exited(status)) => Some(
                if action.spec_outcome(status) == ServiceOutcome::CommandFailed {
                    Transition {
                        next: State::Releasing(Outcome::CommandFailed),
                        notice: Some(Notice::ServiceCommandFailed(action)),
                    }
                } else {
                    Transition {
                        next: State::Polling(action, RetryBudget::spec_new()),
                        notice: Some(Notice::AwaitingReadiness),
                    }
                },
            ),
            (State::Polling(action, budget), Event::Exited(status)) => Some(
                match PollStep::spec_after_query(status) {
                    PollStep::Pause => Transition {
                        next: State::Backoff(action, budget),
                        notice: None,
                    },
                    PollStep::Finished(outcome) => Transition {
                        next: State::Releasing(Outcome::spec_from_service(outcome)),
                        notice: Some(
                            if outcome == ServiceOutcome::Active {
                                Notice::ServiceReady(action)
                            } else {
                                Notice::ReadinessQueryFailed
                            },
                        ),
                    },
                },
            ),
            (State::Backoff(action, budget), Event::Elapsed) => Some(
                match budget.spec_after_pause() {
                    Some(counted) => Transition {
                        next: State::Polling(action, counted),
                        notice: None,
                    },
                    None => Transition {
                        next: State::Releasing(Outcome::Timeout),
                        notice: Some(Notice::PollTimedOut(action)),
                    },
                },
            ),
            (State::Releasing(outcome), Event::LockReleased(removed)) => Some(
                Transition {
                    next: State::Done(outcome),
                    notice: if removed {
                        None
                    } else {
                        Some(Notice::ReleaseFailed)
                    },
                },
            ),
            _ => None,
        }
    }

    /// The step that this state waits for; `None` once the invocation has
    /// ended.
    pub fn pending(&self) -> (action: Option<Action>)
        ensures
            action == self.spec_pending(),
            action is None <==> *self is Done,
    {
        match self {
            State::Idle => Some(Action::AcquireLock),
            State::LockAcquired => Some(Action::ProbeSleepSentinel),
            State::HotplugBranch => Some(Action::Run(Command::QueryBooted)),
            State::Settling(_) => Some(Action::Run(Command::Settle)),
            State::Settled(_, outcome) => Some(Action::Sleep(outcome.delay_millis())),
            State::ServiceActing(action) => Some(Action::Run(action.command())),
            State::Polling(_, _) => Some(Action::Run(Command::QueryActive)),
            State::Backoff(_, budget) => Some(Action::Sleep(budget.interval_millis)),
            State::Releasing(_) => Some(Action::ReleaseLock),
            State::Done(_) => None,
        }
    }

    /// Whether the invocation holds the lock in this state.
    pub fn holds_lock(&self) -> (held: bool)
        ensures
            held == self.spec_holds_lock(),
    {
        match self {
            State::Idle => false,
            State::Done(_) => false,
            _ => true,
        }
    }

    /// The outcome, once the invocation has ended.
    pub fn outcome(&self) -> (outcome: Option<Outcome>)
        ensures
            outcome == (match *self {
                State::Done(o) => Some(o),
                _ => None,
            }),
    {
        match self {
            State::Done(o) => Some(*o),
            _ => None,
        }
    }

    /// Takes the result of the pending step and gives what follows. An event
    /// that is no result of the pending step is refused with `None`, and the
    /// invocation stays where it is.
    pub fn step(self, event: Event) -> (result: Option<Transition>)
        ensures
            result == self.spec_step(event),
            result is Some <==> self.spec_accepts(event),
    {
        match self {
            State::Idle => match event {
                Event::LockGranted => Some(Transition { next: State::LockAcquired, notice: None }),
                Event::LockRefused(LockError::LockTaken) => Some(
                    Transition {
                        next: State::Done(Outcome::LockTaken),
                        notice: Some(Notice::LockContended),
                    },
                ),
                Event::LockRefused(LockError::Io) => Some(
                    Transition {
                        next: State::Done(Outcome::FatalIoError),
                        notice: Some(Notice::LockFileError),
                    },
                ),
                _ => None,
            },
            State::LockAcquired => match event {
                Event::SleepSentinel(true) => Some(
                    Transition {
                        next: State::Settling(ServiceAction::Start),
                        notice: Some(Notice::WakingUp),
                    },
                ),
                Event::SleepSentinel(false) => Some(
                    Transition { next: State::HotplugBranch, notice: Some(Notice::HotplugTriggered) },
                ),
                _ => None,
            },
            State::HotplugBranch => match event {
                Event::Exited(status) => match SystemState::booting_from(status) {
                    None => Some(
                        Transition {
                            next: State::Releasing(Outcome::CommandFailed),
                            notice: Some(Notice::BootStateUnknown),
                        },
                    ),
                    Some(is_booting) => {
                        let system = SystemState { is_booting, resumed_from_sleep: false };
                        match system.service_action() {
                            Some(action) => Some(
                                Transition {
                                    next: State::Settling(action),
                                    notice: Some(Notice::AwaitingSettle),
                                },
                            ),
                            None => Some(
                                Transition {
                                    next: State::Releasing(Outcome::Success),
                                    notice: Some(Notice::StillBooting),
                                },
                            ),
                        }
                    },
                },
                _ => None,
            },
            State::Settling(action) => match event {
                Event::Exited(status) => {
                    let outcome = SettleOutcome::from_status(status);
                    let notice = match outcome {
                        SettleOutcome::Settled => Notice::DevicesSettled,
                        SettleOutcome::FallbackDelayed => Notice::SettleFailed,
                    };
                    Some(Transition { next: State::Settled(action, outcome), notice: Some(notice) })
                },
                _ => None,
            },
            State::Settled(action, _) => match event {
                Event::Elapsed => Some(
                    Transition {
                        next: State::ServiceActing(action),
                        notice: Some(Notice::ServiceRequested(action)),
                    },
                ),
                _ => None,
            },
            State::ServiceActing(action) => match event {
                Event::Exited(status) => match action.outcome(status) {
                    ServiceOutcome::CommandFailed => Some(
                        Transition {
                            next: State::Releasing(Outcome::CommandFailed),
                            notice: Some(Notice::ServiceCommandFailed(action)),
                        },
                    ),
                    _ => Some(
                        Transition {
                            next: State::Polling(action, RetryBudget::new()),
                            notice: Some(Notice::AwaitingReadiness),
                        },
                    ),
                },
                _ => None,
            },
            State::Polling(action, budget) => match event {
                Event::Exited(status) => match PollStep::after_query(status) {
                    PollStep::Pause => Some(
                        Transition { next: State::Backoff(action, budget), notice: None },
                    ),
                    PollStep::Finished(outcome) => {
                        let notice = match outcome {
                            ServiceOutcome::Active => Notice::ServiceReady(action),
                            _ => Notice::ReadinessQueryFailed,
                        };
                        Some(
                            Transition {
                                next: State::Releasing(Outcome::from_service(outcome)),
                                notice: Some(notice),
                            },
                        )
                    },
                },
                _ => None,
            },
            State::Backoff(action, budget) => match event {
                Event::Elapsed => match budget.after_pause() {
                    Some(counted) => Some(
                        Transition { next: State::Polling(action, counted), notice: None },
                    ),
                    None => Some(
                        Transition {
                            next: State::Releasing(Outcome::Timeout),
                            notice: Some(Notice::PollTimedOut(action)),
                        },
                    ),
                },
                _ => None,
            },
            State::Releasing(outcome) => match event {
                Event::LockReleased(true) => Some(
                    Transition { next: State::Done(outcome), notice: None },
                ),
                Event::LockReleased(false) => Some(
                    Transition {
                        next: State::Done(outcome),
                        notice: Some(Notice::ReleaseFailed),
                    },
                ),
                _ => None,
            },
            State::Done(_) => None,
        }
    }
}

} // verus!
