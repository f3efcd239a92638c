//! The parts that the coordinator is made of, one by one.

use eruption_hotplug_helper::cli::{CompletionsSubcommands, MainError, Options, Subcommands};
use eruption_hotplug_helper::command::{
    Command, CommandStatus, DEVICE_MANAGER, SERVICE_MANAGER, SERVICE_UNIT,
};
use eruption_hotplug_helper::coordinator::{Action, Event, Level, Notice, Outcome, State};
use eruption_hotplug_helper::lock::{LockError, LOCK_PATH, SLEEP_SENTINEL_PATH};
use eruption_hotplug_helper::logging::{LevelChoice, LogLevel, LogSetup, DEFAULT_LEVEL};
use eruption_hotplug_helper::probe::SystemState;
use eruption_hotplug_helper::service::{
    poll_until_active, PollStep, RetryBudget, ServiceAction, ServiceOutcome, MAX_ATTEMPTS,
    POLL_INTERVAL_MILLIS,
};
use eruption_hotplug_helper::settle::{
    SettleOutcome, FALLBACK_DELAY_MILLIS, SAFETY_DELAY_MILLIS,
};

#[test]
fn commands_name_their_program_and_arguments() {
    assert_eq!(Command::Settle.program(), "/usr/bin/udevadm");
    assert_eq!(Command::Settle.arguments(), vec!["settle"]);
    assert_eq!(Command::StartService.program(), "/usr/bin/systemctl");
    assert_eq!(Command::StartService.arguments(), vec!["start", "eruption.service"]);
    assert_eq!(Command::RestartService.program(), "/usr/bin/systemctl");
    assert_eq!(Command::RestartService.arguments(), vec!["restart", "eruption.service"]);
    assert_eq!(Command::QueryActive.program(), "/usr/bin/systemctl");
    assert_eq!(Command::QueryActive.arguments(), vec!["is-active", "eruption.service"]);
    assert_eq!(Command::QueryBooted.program(), "/usr/bin/systemctl");
    assert_eq!(Command::QueryBooted.arguments(), vec!["is-system-running"]);
    assert_eq!(DEVICE_MANAGER, "/usr/bin/udevadm");
    assert_eq!(SERVICE_MANAGER, "/usr/bin/systemctl");
    assert_eq!(SERVICE_UNIT, "eruption.service");
}

#[test]
fn well_known_paths() {
    assert_eq!(LOCK_PATH, "/run/lock/eruption-hotplug-helper.lock");
    assert_eq!(SLEEP_SENTINEL_PATH, "/run/lock/eruption-sleep.lock");
    assert_ne!(LOCK_PATH, SLEEP_SENTINEL_PATH);
}

#[test]
fn settle_outcome_follows_the_exit_status() {
    assert_eq!(SettleOutcome::from_status(CommandStatus::Succeeded), SettleOutcome::Settled);
    assert_eq!(SettleOutcome::from_status(CommandStatus::Failed), SettleOutcome::FallbackDelayed);
    assert_eq!(
        SettleOutcome::from_status(CommandStatus::NotSpawned),
        SettleOutcome::FallbackDelayed
    );
}

#[test]
fn settle_delays() {
    assert_eq!(SettleOutcome::Settled.delay_millis(), 500);
    assert_eq!(SettleOutcome::FallbackDelayed.delay_millis(), 2500);
    assert_eq!(SAFETY_DELAY_MILLIS, 500);
    assert_eq!(FALLBACK_DELAY_MILLIS, 2500);
}

#[test]
fn service_actions_and_their_commands() {
    assert_eq!(ServiceAction::Start.command(), Command::StartService);
    assert_eq!(ServiceAction::Restart.command(), Command::RestartService);
}

#[test]
fn service_action_outcome_passes_failure_on() {
    assert_eq!(ServiceAction::Start.outcome(CommandStatus::Succeeded), ServiceOutcome::Started);
    assert_eq!(
        ServiceAction::Restart.outcome(CommandStatus::Succeeded),
        ServiceOutcome::Restarted
    );
    for action in [ServiceAction::Start, ServiceAction::Restart] {
        assert_eq!(action.outcome(CommandStatus::Failed), ServiceOutcome::CommandFailed);
        assert_eq!(action.outcome(CommandStatus::NotSpawned), ServiceOutcome::CommandFailed);
    }
}

#[test]
fn fresh_budget_has_five_attempts_one_second_apart() {
    let budget = RetryBudget::new();
    assert_eq!(budget.max_attempts, 5);
    assert_eq!(budget.interval_millis, 1000);
    assert_eq!(budget.attempted, 0);
    assert_eq!(budget.remaining(), 5);
    assert!(!budget.is_exhausted());
    assert_eq!(MAX_ATTEMPTS, 5);
    assert_eq!(POLL_INTERVAL_MILLIS, 1000);
}

#[test]
fn budget_counts_up_to_its_limit_and_no_further() {
    let mut budget = RetryBudget::new();
    for expected in 1..=5u32 {
        assert!(!budget.is_exhausted());
        budget.record_attempt();
        assert_eq!(budget.attempted, expected);
        assert_eq!(budget.remaining(), 5 - expected);
    }
    assert!(budget.is_exhausted());
    budget.record_attempt();
    assert_eq!(budget.attempted, 5);
    assert_eq!(budget.remaining(), 0);
    assert_eq!(budget.max_attempts, 5);
    assert_eq!(budget.interval_millis, 1000);
}

#[test]
fn budget_after_pause_goes_on_until_the_last_attempt() {
    let mut budget = RetryBudget::new();
    for expected in 1..=4u32 {
        budget = budget.after_pause().expect("attempts are left");
        assert_eq!(budget.attempted, expected);
    }
    assert_eq!(budget.after_pause(), None);
    let single = RetryBudget { max_attempts: 1, interval_millis: 10, attempted: 0 };
    assert_eq!(single.after_pause(), None);
    let spent = RetryBudget { max_attempts: 3, interval_millis: 10, attempted: 3 };
    assert_eq!(spent.after_pause(), None);
    assert_eq!(spent.remaining(), 0);
    let broken = RetryBudget { max_attempts: 3, interval_millis: 10, attempted: 7 };
    assert_eq!(broken.remaining(), 0);
    assert!(broken.is_exhausted());
    assert_eq!(broken.after_pause(), None);
}

#[test]
fn poll_step_after_query() {
    assert_eq!(
        PollStep::after_query(CommandStatus::Succeeded),
        PollStep::Finished(ServiceOutcome::Active)
    );
    assert_eq!(PollStep::after_query(CommandStatus::Failed), PollStep::Pause);
    assert_eq!(
        PollStep::after_query(CommandStatus::NotSpawned),
        PollStep::Finished(ServiceOutcome::CommandFailed)
    );
}

#[test]
fn poll_never_active_times_out_after_five_queries() {
    let answers = vec![CommandStatus::Failed; 12];
    let run = poll_until_active(RetryBudget::new(), &answers);
    assert_eq!(run.outcome, Some(ServiceOutcome::TimedOut));
    assert_eq!(run.queries, 5);
    assert_eq!(run.pauses, 5);
    // Four of the pauses lie between two queries; the fifth comes before the timeout.
    assert_eq!(run.queries - 1, 4);
    assert_eq!(run.budget.attempted, 5);
    assert!(run.budget.is_exhausted());
}

#[test]
fn poll_active_at_once_makes_one_query_and_no_pause() {
    let run = poll_until_active(RetryBudget::new(), &vec![CommandStatus::Succeeded]);
    assert_eq!(run.outcome, Some(ServiceOutcome::Active));
    assert_eq!(run.queries, 1);
    assert_eq!(run.pauses, 0);
    assert_eq!(run.budget, RetryBudget::new());
}

#[test]
fn poll_active_after_some_attempts() {
    let answers = vec![
        CommandStatus::Failed,
        CommandStatus::Failed,
        CommandStatus::Succeeded,
        CommandStatus::Failed,
    ];
    let run = poll_until_active(RetryBudget::new(), &answers);
    assert_eq!(run.outcome, Some(ServiceOutcome::Active));
    assert_eq!(run.queries, 3);
    assert_eq!(run.pauses, 2);
    assert_eq!(run.budget.attempted, 2);
}

#[test]
fn poll_broken_query_is_not_retried() {
    let answers = vec![CommandStatus::Failed, CommandStatus::NotSpawned, CommandStatus::Succeeded];
    let run = poll_until_active(RetryBudget::new(), &answers);
    assert_eq!(run.outcome, Some(ServiceOutcome::CommandFailed));
    assert_eq!(run.queries, 2);
    assert_eq!(run.pauses, 1);
}

#[test]
fn poll_is_undecided_while_answers_are_missing() {
    let run = poll_until_active(RetryBudget::new(), &Vec::new());
    assert_eq!(run.outcome, None);
    assert_eq!(run.queries, 0);
    assert_eq!(run.pauses, 0);
    let run = poll_until_active(RetryBudget::new(), &vec![CommandStatus::Failed; 4]);
    assert_eq!(run.outcome, None);
    assert_eq!(run.queries, 4);
    assert_eq!(run.pauses, 4);
    assert_eq!(run.budget.attempted, 4);
}

#[test]
fn poll_with_other_budgets() {
    let partly = RetryBudget { max_attempts: 5, interval_millis: 1000, attempted: 3 };
    let run = poll_until_active(partly, &vec![CommandStatus::Failed; 9]);
    assert_eq!(run.outcome, Some(ServiceOutcome::TimedOut));
    assert_eq!(run.queries, 2);
    assert_eq!(run.pauses, 2);
    assert_eq!(run.budget.attempted, 5);
    let spent = RetryBudget { max_attempts: 5, interval_millis: 1000, attempted: 5 };
    let run = poll_until_active(spent, &vec![CommandStatus::Failed; 9]);
    assert_eq!(run.outcome, Some(ServiceOutcome::TimedOut));
    assert_eq!(run.queries, 1);
    assert_eq!(run.pauses, 1);
    assert_eq!(run.budget, spent);
    let run = poll_until_active(spent, &vec![CommandStatus::Succeeded]);
    assert_eq!(run.outcome, Some(ServiceOutcome::Active));
    assert_eq!(run.queries, 1);
}

#[test]
fn system_state_selects_the_service_action() {
    for is_booting in [false, true] {
        let woke = SystemState { is_booting, resumed_from_sleep: true };
        assert_eq!(woke.service_action(), Some(ServiceAction::Start));
    }
    let plugged = SystemState { is_booting: false, resumed_from_sleep: false };
    assert_eq!(plugged.service_action(), Some(ServiceAction::Restart));
    let booting = SystemState { is_booting: true, resumed_from_sleep: false };
    assert_eq!(booting.service_action(), None);
}

#[test]
fn boot_query_status_is_read_without_a_default() {
    assert_eq!(SystemState::booting_from(CommandStatus::Succeeded), Some(false));
    assert_eq!(SystemState::booting_from(CommandStatus::Failed), Some(true));
    assert_eq!(SystemState::booting_from(CommandStatus::NotSpawned), None);
}

#[test]
fn outcomes_exit_codes_and_lock_ownership() {
    for outcome in [Outcome::Success, Outcome::Timeout, Outcome::CommandFailed] {
        assert_eq!(outcome.exit_code(), 0);
        assert!(outcome.held_lock());
    }
    assert_eq!(Outcome::LockTaken.exit_code(), 0);
    assert!(!Outcome::LockTaken.held_lock());
    assert_eq!(Outcome::FatalIoError.exit_code(), 1);
    assert!(!Outcome::FatalIoError.held_lock());
}

#[test]
fn outcome_from_service_outcome() {
    assert_eq!(Outcome::from_service(ServiceOutcome::Active), Outcome::Success);
    assert_eq!(Outcome::from_service(ServiceOutcome::Started), Outcome::Success);
    assert_eq!(Outcome::from_service(ServiceOutcome::Restarted), Outcome::Success);
    assert_eq!(Outcome::from_service(ServiceOutcome::TimedOut), Outcome::Timeout);
    assert_eq!(Outcome::from_service(ServiceOutcome::CommandFailed), Outcome::CommandFailed);
}

#[test]
fn pending_step_of_every_state() {
    let budget = RetryBudget::new();
    assert_eq!(State::Idle.pending(), Some(Action::AcquireLock));
    assert_eq!(State::LockAcquired.pending(), Some(Action::ProbeSleepSentinel));
    assert_eq!(State::HotplugBranch.pending(), Some(Action::Run(Command::QueryBooted)));
    assert_eq!(
        State::Settling(ServiceAction::Start).pending(),
        Some(Action::Run(Command::Settle))
    );
    assert_eq!(
        State::Settled(ServiceAction::Start, SettleOutcome::Settled).pending(),
        Some(Action::Sleep(500))
    );
    assert_eq!(
        State::Settled(ServiceAction::Restart, SettleOutcome::FallbackDelayed).pending(),
        Some(Action::Sleep(2500))
    );
    assert_eq!(
        State::ServiceActing(ServiceAction::Start).pending(),
        Some(Action::Run(Command::StartService))
    );
    assert_eq!(
        State::ServiceActing(ServiceAction::Restart).pending(),
        Some(Action::Run(Command::RestartService))
    );
    assert_eq!(
        State::Polling(ServiceAction::Start, budget).pending(),
        Some(Action::Run(Command::QueryActive))
    );
    assert_eq!(State::Backoff(ServiceAction::Start, budget).pending(), Some(Action::Sleep(1000)));
    assert_eq!(State::Releasing(Outcome::Timeout).pending(), Some(Action::ReleaseLock));
    assert_eq!(State::Done(Outcome::Timeout).pending(), None);
}

#[test]
fn lock_is_held_from_acquisition_to_release() {
    let budget = RetryBudget::new();
    assert!(!State::Idle.holds_lock());
    assert!(State::LockAcquired.holds_lock());
    assert!(State::HotplugBranch.holds_lock());
    assert!(State::Settling(ServiceAction::Restart).holds_lock());
    assert!(State::Polling(ServiceAction::Restart, budget).holds_lock());
    assert!(State::Backoff(ServiceAction::Restart, budget).holds_lock());
    assert!(State::Releasing(Outcome::Success).holds_lock());
    assert!(!State::Done(Outcome::Success).holds_lock());
    assert!(!State::Done(Outcome::LockTaken).holds_lock());
}

#[test]
fn outcome_is_known_only_at_the_end() {
    assert_eq!(State::Idle.outcome(), None);
    assert_eq!(State::Releasing(Outcome::Timeout).outcome(), None);
    assert_eq!(State::Done(Outcome::Timeout).outcome(), Some(Outcome::Timeout));
}

#[test]
fn events_answer_only_the_step_that_asked() {
    let events = [
        Event::LockGranted,
        Event::LockRefused(LockError::Io),
        Event::SleepSentinel(false),
        Event::Exited(CommandStatus::Failed),
        Event::Elapsed,
        Event::LockReleased(false),
    ];
    let fits = |action: Action| -> Vec<bool> {
        events.iter().map(|event| action.answered_by(*event)).collect()
    };
    assert_eq!(fits(Action::AcquireLock), vec![true, true, false, false, false, false]);
    assert_eq!(fits(Action::ProbeSleepSentinel), vec![false, false, true, false, false, false]);
    assert_eq!(
        fits(Action::Run(Command::Settle)),
        vec![false, false, false, true, false, false]
    );
    assert_eq!(fits(Action::Sleep(500)), vec![false, false, false, false, true, false]);
    assert_eq!(fits(Action::ReleaseLock), vec![false, false, false, false, false, true]);
}

#[test]
fn step_refuses_what_the_state_does_not_wait_for() {
    assert_eq!(State::Idle.step(Event::Elapsed), None);
    assert_eq!(State::LockAcquired.step(Event::LockGranted), None);
    assert_eq!(State::HotplugBranch.step(Event::SleepSentinel(true)), None);
    assert_eq!(
        State::Settling(ServiceAction::Start).step(Event::Elapsed),
        None
    );
    assert_eq!(
        State::Settled(ServiceAction::Start, SettleOutcome::Settled)
            .step(Event::Exited(CommandStatus::Succeeded)),
        None
    );
    assert_eq!(State::Releasing(Outcome::Success).step(Event::Elapsed), None);
}

#[test]
fn backoff_counts_the_attempt_and_times_out_at_the_fifth() {
    let mut budget = RetryBudget::new();
    for _ in 0..4 {
        let transition = State::Backoff(ServiceAction::Restart, budget).step(Event::Elapsed).unwrap();
        budget.record_attempt();
        assert_eq!(transition.next, State::Polling(ServiceAction::Restart, budget));
        assert_eq!(transition.notice, None);
    }
    assert_eq!(budget.attempted, 4);
    let transition = State::Backoff(ServiceAction::Restart, budget).step(Event::Elapsed).unwrap();
    assert_eq!(transition.next, State::Releasing(Outcome::Timeout));
    assert_eq!(transition.notice, Some(Notice::PollTimedOut(ServiceAction::Restart)));
}

#[test]
fn notices_have_levels_and_messages() {
    let errors = [
        Notice::LockFileError,
        Notice::BootStateUnknown,
        Notice::SettleFailed,
        Notice::ServiceCommandFailed(ServiceAction::Start),
        Notice::ServiceCommandFailed(ServiceAction::Restart),
        Notice::ReadinessQueryFailed,
        Notice::PollTimedOut(ServiceAction::Start),
        Notice::PollTimedOut(ServiceAction::Restart),
        Notice::ReleaseFailed,
    ];
    for notice in errors {
        assert_eq!(notice.level(), Level::Error);
        assert!(!notice.message().is_empty());
    }
    let infos = [
        Notice::WakingUp,
        Notice::HotplugTriggered,
        Notice::AwaitingSettle,
        Notice::StillBooting,
        Notice::DevicesSettled,
        Notice::ServiceRequested(ServiceAction::Start),
        Notice::ServiceRequested(ServiceAction::Restart),
        Notice::AwaitingReadiness,
        Notice::ServiceReady(ServiceAction::Start),
        Notice::ServiceReady(ServiceAction::Restart),
    ];
    for notice in infos {
        assert_eq!(notice.level(), Level::Info);
        assert!(!notice.message().is_empty());
    }
    assert_eq!(Notice::LockContended.level(), Level::Warn);
    assert_eq!(
        Notice::LockContended.message(),
        "We have been invoked while holding a global lock, exiting now"
    );
    assert_eq!(
        Notice::PollTimedOut(ServiceAction::Restart).message(),
        "Timeout while restarting eruption.service"
    );
    assert_eq!(
        Notice::PollTimedOut(ServiceAction::Start).message(),
        "Timeout while starting eruption.service"
    );
    assert_eq!(
        Notice::StillBooting.message(),
        "System is still booting, skipping restart of Eruption"
    );
}

#[test]
fn main_error_messages() {
    let unknown = MainError::UnknownError { description: String::from("disk on fire") };
    assert_eq!(unknown.message(), "Unknown error: disk on fire");
    let empty = MainError::UnknownError { description: String::new() };
    assert_eq!(empty.message(), "Unknown error: ");
    assert_eq!(MainError::SyslogLevelError {}.message(), "Could not parse syslog log-level");
}

#[test]
fn options_hold_what_was_parsed() {
    let hotplug = Options::new(2, Subcommands::Hotplug);
    assert_eq!(hotplug.verbose, 2);
    assert_eq!(hotplug.command, Subcommands::Hotplug);
    assert!(hotplug.is_hotplug());
    for shell in [
        CompletionsSubcommands::Bash,
        CompletionsSubcommands::Elvish,
        CompletionsSubcommands::Fish,
        CompletionsSubcommands::PowerShell,
        CompletionsSubcommands::Zsh,
    ] {
        let completions = Options::new(0, Subcommands::Completions { command: shell });
        assert!(!completions.is_hotplug());
        assert_eq!(completions.command, Subcommands::Completions { command: shell });
    }
}

#[test]
fn level_names_in_lower_case() {
    let known = [
        ("off", LogLevel::Off),
        ("error", LogLevel::Error),
        ("warn", LogLevel::Warn),
        ("info", LogLevel::Info),
        ("debug", LogLevel::Debug),
        ("trace", LogLevel::Trace),
    ];
    for (name, level) in known {
        assert_eq!(
            LevelChoice::from_lowercase(name),
            LevelChoice { level, unrecognized: false }
        );
    }
    for name in ["", "warning", "INFO", " info", "verbose"] {
        assert_eq!(
            LevelChoice::from_lowercase(name),
            LevelChoice { level: LogLevel::Info, unrecognized: true }
        );
    }
}

#[test]
fn level_names_in_any_case() {
    assert_eq!(
        LevelChoice::parse("WARN"),
        LevelChoice { level: LogLevel::Warn, unrecognized: false }
    );
    assert_eq!(
        LevelChoice::parse("Trace"),
        LevelChoice { level: LogLevel::Trace, unrecognized: false }
    );
    assert_eq!(
        LevelChoice::parse("debug"),
        LevelChoice { level: LogLevel::Debug, unrecognized: false }
    );
    assert_eq!(
        LevelChoice::parse("LOUD"),
        LevelChoice { level: LogLevel::Info, unrecognized: true }
    );
}

#[test]
fn logging_setup() {
    assert_eq!(LogSetup::decide(true, None), LogSetup::ConsoleWithDefault);
    assert_eq!(LogSetup::decide(true, Some("debug")), LogSetup::Console);
    assert_eq!(LogSetup::decide(true, Some("nonsense")), LogSetup::Console);
    assert_eq!(
        LogSetup::decide(false, None),
        LogSetup::Syslog(LevelChoice { level: LogLevel::Info, unrecognized: false })
    );
    assert_eq!(
        LogSetup::decide(false, Some("ERROR")),
        LogSetup::Syslog(LevelChoice { level: LogLevel::Error, unrecognized: false })
    );
    assert_eq!(
        LogSetup::decide(false, Some("nonsense")),
        LogSetup::Syslog(LevelChoice { level: LogLevel::Info, unrecognized: true })
    );
    assert_eq!(DEFAULT_LEVEL, "info");
}
