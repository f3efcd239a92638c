//! What holds of every invocation, whatever the system answers.
//!
//! Each law speaks of the events that an invocation has seen, in any number
//! and any order, and of the state, the steps and the answers that
//! `crate::replay` derives from them.

use vstd::prelude::*;
use crate::command::{Command, CommandStatus};
use crate::coordinator::{Action, Event, Outcome, State};
use crate::probe::SystemState;
use crate::replay::{
    advance, boot_answer, count, count_pairs, issued, sentinel_answer, slept_millis, state_after,
};
use crate::service::{RetryBudget, ServiceAction};

verus! {

/// The steps that an invocation has asked for, counted by kind.
struct Tally {
    acquires: nat,
    probes: nat,
    boot_queries: nat,
    settles: nat,
    short_pauses: nat,
    long_pauses: nat,
    starts: nat,
    restarts: nat,
    queries: nat,
    backoffs: nat,
    requeries: nat,
    releases: nat,
    length: nat,
    slept: nat,
    last: Action,
}

spec fn tally(actions: Seq<Action>) -> Tally {
    Tally {
        acquires: count(actions, Action::AcquireLock),
        probes: count(actions, Action::ProbeSleepSentinel),
        boot_queries: count(actions, Action::Run(Command::QueryBooted)),
        settles: count(actions, Action::Run(Command::Settle)),
        short_pauses: count(actions, Action::Sleep(500)),
        long_pauses: count(actions, Action::Sleep(2500)),
        starts: count(actions, Action::Run(Command::StartService)),
        restarts: count(actions, Action::Run(Command::RestartService)),
        queries: count(actions, Action::Run(Command::QueryActive)),
        backoffs: count(actions, Action::Sleep(1000)),
        requeries: count_pairs(actions, Action::Sleep(1000), Action::Run(Command::QueryActive)),
        releases: count(actions, Action::ReleaseLock),
        length: actions.len(),
        slept: slept_millis(actions),
        last: actions.last(),
    }
}

spec fn one_if(condition: bool) -> nat {
    if condition {
        1
    } else {
        0
    }
}

/// The tally after one more step.
spec fn bump(t: Tally, action: Action) -> Tally {
    Tally {
        acquires: t.acquires + one_if(action == Action::AcquireLock),
        probes: t.probes + one_if(action == Action::ProbeSleepSentinel),
        boot_queries: t.boot_queries + one_if(action == Action::Run(Command::QueryBooted)),
        settles: t.settles + one_if(action == Action::Run(Command::Settle)),
        short_pauses: t.short_pauses + one_if(action == Action::Sleep(500)),
        long_pauses: t.long_pauses + one_if(action == Action::Sleep(2500)),
        starts: t.starts + one_if(action == Action::Run(Command::StartService)),
        restarts: t.restarts + one_if(action == Action::Run(Command::RestartService)),
        queries: t.queries + one_if(action == Action::Run(Command::QueryActive)),
        backoffs: t.backoffs + one_if(action == Action::Sleep(1000)),
        requeries: t.requeries + one_if(
            t.last == Action::Sleep(1000) && action == Action::Run(Command::QueryActive),
        ),
        releases: t.releases + one_if(action == Action::ReleaseLock),
        length: t.length + 1,
        slept: t.slept + match action {
            Action::Sleep(millis) => millis as nat,
            _ => 0nat,
        },
        last: action,
    }
}

/// Nothing but the lock has been asked for.
spec fn untouched(t: Tally) -> bool {
    &&& t.probes == 0
    &&& t.boot_queries == 0
    &&& t.settles == 0
    &&& t.short_pauses == 0
    &&& t.long_pauses == 0
    &&& t.starts == 0
    &&& t.restarts == 0
    &&& t.queries == 0
    &&& t.backoffs == 0
    &&& t.requeries == 0
    &&& t.releases == 0
}

/// The branch that leads to `action` was taken, and its first steps were
/// asked for once each.
spec fn branched(
    action: ServiceAction,
    t: Tally,
    sentinel: Option<bool>,
    boot: Option<CommandStatus>,
) -> bool {
    &&& t.probes == 1
    &&& t.settles == 1
    &&& action == ServiceAction::Start ==> t.boot_queries == 0 && sentinel == Some(true) && boot
        is None
    &&& action == ServiceAction::Restart ==> t.boot_queries == 1 && sentinel == Some(false) && boot
        == Some(CommandStatus::Succeeded)
}

/// The service was acted on once, with `action`.
spec fn acted(action: ServiceAction, t: Tally) -> bool {
    &&& t.short_pauses + t.long_pauses == 1
    &&& t.starts == one_if(action == ServiceAction::Start)
    &&& t.restarts == one_if(action == ServiceAction::Restart)
}

/// A budget as the coordinator makes it, with an attempt left.
spec fn running(budget: RetryBudget) -> bool {
    &&& budget.max_attempts == 5
    &&& budget.interval_millis == 1000
    &&& budget.attempted < 5
}

/// What holds when the work is over, for an invocation that held the lock.
spec fn finished(
    outcome: Outcome,
    t: Tally,
    sentinel: Option<bool>,
    boot: Option<CommandStatus>,
) -> bool {
    &&& t.probes == 1
    &&& t.releases == 1
    &&& outcome.spec_held_lock()
    &&& t.last == Action::ReleaseLock
    &&& {
        ||| {
            &&& sentinel == Some(false)
            &&& t.boot_queries == 1
            &&& boot == Some(CommandStatus::Failed) || boot == Some(CommandStatus::NotSpawned)
            &&& boot == Some(CommandStatus::Failed) <==> outcome == Outcome::Success
            &&& boot == Some(CommandStatus::NotSpawned) <==> outcome == Outcome::CommandFailed
            &&& t.settles == 0
            &&& t.short_pauses == 0
            &&& t.long_pauses == 0
            &&& t.starts == 0
            &&& t.restarts == 0
            &&& t.queries == 0
            &&& t.backoffs == 0
            &&& t.requeries == 0
        }
        ||| {
            &&& t.starts + t.restarts == 1
            &&& t.starts == 1 ==> branched(ServiceAction::Start, t, sentinel, boot) && acted(
                ServiceAction::Start,
                t,
            )
            &&& t.restarts == 1 ==> branched(ServiceAction::Restart, t, sentinel, boot) && acted(
                ServiceAction::Restart,
                t,
            )
            &&& t.queries <= 5
            &&& t.queries == 0 ==> t.backoffs == 0 && t.requeries == 0 && outcome
                == Outcome::CommandFailed
            &&& t.queries > 0 ==> t.requeries == t.queries - 1
            &&& t.queries > 0 && outcome != Outcome::Timeout ==> t.backoffs == t.queries - 1
            &&& outcome == Outcome::Timeout ==> t.queries == 5 && t.backoffs == 5
        }
    }
}

/// What holds of an invocation in `state` whose steps so far are counted in
/// `t` and which got the answers `sentinel` and `boot`.
spec fn consistent(
    state: State,
    t: Tally,
    sentinel: Option<bool>,
    boot: Option<CommandStatus>,
) -> bool {
    &&& t.acquires == 1
    &&& t.length == t.acquires + t.probes + t.boot_queries + t.settles + t.short_pauses
        + t.long_pauses + t.starts + t.restarts + t.queries + t.backoffs + t.releases
    &&& t.slept == 500 * t.short_pauses + 2500 * t.long_pauses + 1000 * t.backoffs
    &&& state.spec_pending() matches Some(pending) ==> t.last == pending
    &&& match state {
        State::Idle => untouched(t) && sentinel is None && boot is None,
        State::LockAcquired => untouched(Tally { probes: 0, ..t }) && t.probes == 1 && sentinel
            is None && boot is None,
        State::HotplugBranch => untouched(Tally { probes: 0, boot_queries: 0, ..t }) && t.probes
            == 1 && t.boot_queries == 1 && sentinel == Some(false) && boot is None,
        State::Settling(action) => {
            &&& branched(action, t, sentinel, boot)
            &&& untouched(Tally { probes: 0, boot_queries: 0, settles: 0, ..t })
        },
        State::Settled(action, outcome) => {
            &&& branched(action, t, sentinel, boot)
            &&& t.short_pauses + t.long_pauses == 1
            &&& untouched(
                Tally { probes: 0, boot_queries: 0, settles: 0, short_pauses: 0, long_pauses: 0, ..t },
            )
        },
        State::ServiceActing(action) => {
            &&& branched(action, t, sentinel, boot)
            &&& acted(action, t)
            &&& t.queries == 0
            &&& t.backoffs == 0
            &&& t.requeries == 0
            &&& t.releases == 0
        },
        State::Polling(action, budget) => {
            &&& branched(action, t, sentinel, boot)
            &&& acted(action, t)
            &&& running(budget)
            &&& t.queries == budget.attempted + 1
            &&& t.backoffs == budget.attempted
            &&& t.requeries == budget.attempted
            &&& t.releases == 0
        },
        State::Backoff(action, budget) => {
            &&& branched(action, t, sentinel, boot)
            &&& acted(action, t)
            &&& running(budget)
            &&& t.queries == budget.attempted + 1
            &&& t.backoffs == budget.attempted + 1
            &&& t.requeries == budget.attempted
            &&& t.releases == 0
        },
        State::Releasing(outcome) => finished(outcome, t, sentinel, boot),
        State::Done(outcome) => if outcome.spec_held_lock() {
            finished(outcome, t, sentinel, boot)
        } else {
            untouched(t) && sentinel is None && boot is None
        },
    }
}

/// The tally that follows `event`: one more step where the event is
/// accepted and the invocation goes on.
spec fn tally_after(state: State, t: Tally, event: Event) -> Tally {
    match state.spec_step(event) {
        Some(transition) => match transition.next.spec_pending() {
            Some(action) => bump(t, action),
            None => t,
        },
        None => t,
    }
}

spec fn sentinel_after(state: State, sentinel: Option<bool>, event: Event) -> Option<bool> {
    match (state, event) {
        (State::LockAcquired, Event::SleepSentinel(present)) => Some(present),
        _ => sentinel,
    }
}

spec fn boot_after(state: State, boot: Option<CommandStatus>, event: Event) -> Option<
    CommandStatus,
> {
    match (state, event) {
        (State::HotplugBranch, Event::Exited(status)) => Some(status),
        _ => boot,
    }
}

/// An event keeps the invariant.
proof fn lemma_step_consistent(
    state: State,
    t: Tally,
    sentinel: Option<bool>,
    boot: Option<CommandStatus>,
    event: Event,
)
    requires
        consistent(state, t, sentinel, boot),
    ensures
        consistent(
            advance(state, event),
            tally_after(state, t, event),
            sentinel_after(state, sentinel, event),
            boot_after(state, boot, event),
        ),
{
    let next = advance(state, event);
    let counted = tally_after(state, t, event);
    let seen = sentinel_after(state, sentinel, event);
    let booted = boot_after(state, boot, event);
    if state.spec_step(event) is None {
        assert(next == state && counted == t);
        assert(seen == sentinel && booted == boot);
    } else {
        match state {
            State::Idle => {
                assert(consistent(next, counted, seen, booted));
            },
            State::LockAcquired => {
                assert(consistent(next, counted, seen, booted));
            },
            State::HotplugBranch => {
                assert(consistent(next, counted, seen, booted));
            },
            State::Settling(_) => {
                assert(consistent(next, counted, seen, booted));
            },
            State::Settled(_, _) => {
                assert(consistent(next, counted, seen, booted));
            },
            State::ServiceActing(_) => {
                assert(consistent(next, counted, seen, booted));
            },
            State::Polling(_, _) => {
                assert(consistent(next, counted, seen, booted));
            },
            State::Backoff(_, _) => {
                assert(consistent(next, counted, seen, booted));
            },
            State::Releasing(_) => {
                assert(consistent(next, counted, seen, booted));
            },
            State::Done(_) => {},
        }
    }
}

/// One more step: every count grows by one where it counts that step.
proof fn lemma_push(actions: Seq<Action>, action: Action)
    requires
        actions.len() > 0,
    ensures
        tally(actions.push(action)) == bump(tally(actions), action),
{
    let longer = actions.push(action);
    assert(longer.drop_last() =~= actions);
    assert(longer[longer.len() - 2] == actions.last());
}

/// The invariant holds before anything has happened.
proof fn lemma_consistent_at_start()
    ensures
        consistent(State::Idle, tally(seq![Action::AcquireLock]), None, None),
{
    let actions = seq![Action::AcquireLock];
    let none = Seq::<Action>::empty();
    assert(actions.drop_last() =~= none);
    assert(actions.last() == Action::AcquireLock);
    assert(forall|other: Action| count(none, other) == 0);
    assert(forall|other: Action| #[trigger]
        count(actions, other) == count(none, other) + one_if(Action::AcquireLock == other));
    assert(slept_millis(none) == 0);
    assert(count_pairs(actions, Action::Sleep(1000), Action::Run(Command::QueryActive)) == 0);
}

/// The invariant holds of every invocation.
proof fn lemma_consistent(events: Seq<Event>)
    ensures
        consistent(
            state_after(events),
            tally(issued(events)),
            sentinel_answer(events),
            boot_answer(events),
        ),
    decreases events.len(),
{
    if events.len() == 0 {
        lemma_consistent_at_start();
    } else {
        let earlier = events.drop_last();
        let event = events.last();
        lemma_consistent(earlier);
        let before = state_after(earlier);
        let asked = issued(earlier);
        lemma_step_consistent(
            before,
            tally(asked),
            sentinel_answer(earlier),
            boot_answer(earlier),
            event,
        );
        assert(asked.len() == tally(asked).length);
        match before.spec_step(event) {
            Some(transition) => match transition.next.spec_pending() {
                Some(action) => {
                    lemma_push(asked, action);
                },
                None => {},
            },
            None => {},
        }
    }
}

/// What the system was found to be: `system` agrees with the answers that
/// the invocation got. After a wake-up the boot state is never asked for,
/// and `system.is_booting` may be anything.
pub open spec fn observed(events: Seq<Event>, system: SystemState) -> bool {
    &&& sentinel_answer(events) == Some(system.resumed_from_sleep)
    &&& !system.resumed_from_sleep ==> (boot_answer(events) matches Some(status)
        && SystemState::spec_booting_from(status) == Some(system.is_booting))
}

/// The lock is taken once and given back once. Whatever the system answers,
/// an invocation asks for the lock exactly once and never releases it twice.
/// While it works it has not released it. Once it has ended, it has released
/// the lock exactly once if it ever held it (on success, on a timeout and
/// after a failed command alike), as its last step; and it has never asked to
/// release it if the lock was refused.
pub proof fn lemma_lock_released_once(events: Seq<Event>)
    ensures
        count(issued(events), Action::AcquireLock) == 1,
        count(issued(events), Action::ReleaseLock) <= 1,
        state_after(events).spec_holds_lock() ==> count(issued(events), Action::ReleaseLock) == (
        if state_after(events) is Releasing {
            1nat
        } else {
            0nat
        }),
        state_after(events) matches State::Done(outcome) ==> count(
            issued(events),
            Action::ReleaseLock,
        ) == (if outcome.spec_held_lock() {
            1nat
        } else {
            0nat
        }),
        state_after(events) matches State::Done(outcome) ==> (outcome.spec_held_lock()
            ==> issued(events).last() == Action::ReleaseLock),
        state_after(events) matches State::Releasing(outcome) ==> outcome.spec_held_lock(),
{
    lemma_consistent(events);
}

/// Polling is bounded. An invocation asks at most five times whether the
/// service is active. It pauses at most four times between two such queries,
/// and at most five times in all: the pause after the last query comes before
/// the timeout. An invocation that timed out has asked exactly five times.
pub proof fn lemma_retry_bound(events: Seq<Event>)
    ensures
        count(issued(events), Action::Run(Command::QueryActive)) <= 5,
        count_pairs(issued(events), Action::Sleep(1000), Action::Run(Command::QueryActive)) <= 4,
        count(issued(events), Action::Sleep(1000)) <= count(
            issued(events),
            Action::Run(Command::QueryActive),
        ),
        (state_after(events) == State::Releasing(Outcome::Timeout) || state_after(events)
            == State::Done(Outcome::Timeout)) ==> count(
            issued(events),
            Action::Run(Command::QueryActive),
        ) == 5 && count(issued(events), Action::Sleep(1000)) == 5,
{
    lemma_consistent(events);
}

/// Every budget that an invocation polls with is the fresh one with some
/// attempts counted: five attempts, one second apart, and at least one left.
pub proof fn lemma_budget_within_limits(events: Seq<Event>)
    ensures
        match state_after(events) {
            State::Polling(_, budget) | State::Backoff(_, budget) => {
                &&& budget.wf()
                &&& budget.max_attempts == 5
                &&& budget.interval_millis == 1000
                &&& budget.attempted < budget.max_attempts
                &&& count(issued(events), Action::Run(Command::QueryActive)) == budget.attempted
                    + 1
            },
            _ => true,
        },
{
    lemma_consistent(events);
}

/// The branch decides the action. The only action on the service that an
/// invocation asks for is the one that `SystemState::spec_service_action`
/// gives for the system that it found: start after a wake-up, never restart;
/// restart after a hotplug event on a system that has booted, never start;
/// and neither, nor a settle nor a query, while the system is booting. An
/// action that is due is asked for at most once, and exactly once by the time
/// the invocation has ended.
pub proof fn lemma_branch_selection(events: Seq<Event>, system: SystemState)
    requires
        observed(events, system),
    ensures
        system.resumed_from_sleep ==> count(
            issued(events),
            Action::Run(Command::RestartService),
        ) == 0 && count(issued(events), Action::Run(Command::QueryBooted)) == 0,
        !system.resumed_from_sleep && !system.is_booting ==> count(
            issued(events),
            Action::Run(Command::StartService),
        ) == 0,
        !system.resumed_from_sleep && system.is_booting ==> {
            &&& count(issued(events), Action::Run(Command::StartService)) == 0
            &&& count(issued(events), Action::Run(Command::RestartService)) == 0
            &&& count(issued(events), Action::Run(Command::Settle)) == 0
            &&& count(issued(events), Action::Run(Command::QueryActive)) == 0
        },
        forall|action: ServiceAction|
            count(issued(events), Action::Run(#[trigger] action.spec_command())) > 0
                ==> system.spec_service_action() == Some(action),
        forall|action: ServiceAction|
            count(issued(events), Action::Run(#[trigger] action.spec_command())) <= 1,
        forall|action: ServiceAction|
            system.spec_service_action() == Some(action) && state_after(events) is Done ==> count(
                issued(events),
                Action::Run(#[trigger] action.spec_command()),
            ) == 1,
{
    lemma_consistent(events);
    assert(ServiceAction::Start.spec_command() == Command::StartService);
    assert(ServiceAction::Restart.spec_command() == Command::RestartService);
}

/// A handler cannot hang. An invocation asks for at most seventeen steps and
/// sleeps for at most seven and a half seconds in all, of which at most five
/// are spent waiting for the service.
pub proof fn lemma_bounded(events: Seq<Event>)
    ensures
        issued(events).len() <= 17,
        slept_millis(issued(events)) <= 7500,
        1000 * count(issued(events), Action::Sleep(1000)) <= 5000,
{
    lemma_consistent(events);
}

/// Every event is the result of the step that was pending when it came.
pub open spec fn answered_in_turn(events: Seq<Event>) -> bool {
    forall|i: int|
        0 <= i < events.len() ==> (#[trigger] state_after(events.take(i))).spec_accepts(events[i])
}

/// An invocation whose steps are all answered has asked for one step more
/// than it got answers, until it has ended.
proof fn lemma_one_step_per_answer(events: Seq<Event>)
    requires
        answered_in_turn(events),
    ensures
        issued(events).len() == events.len() + one_if(!(state_after(events) is Done)),
    decreases events.len(),
{
    if events.len() > 0 {
        let earlier = events.drop_last();
        assert(earlier =~= events.take(events.len() - 1));
        assert forall|i: int| 0 <= i < earlier.len() implies (#[trigger] state_after(
            earlier.take(i),
        )).spec_accepts(earlier[i]) by {
            assert(earlier.take(i) =~= events.take(i));
        }
        lemma_one_step_per_answer(earlier);
        assert(state_after(earlier).spec_accepts(events.last()));
    }
}

/// Every invocation ends. A caller that performs each pending step and
/// hands its result back has handed back at most seventeen results, whatever
/// they were, when nothing is pending any more.
pub proof fn lemma_invocation_ends(events: Seq<Event>)
    requires
        answered_in_turn(events),
    ensures
        events.len() <= 17,
        events.len() == 17 ==> state_after(events) is Done,
{
    lemma_one_step_per_answer(events);
    lemma_bounded(events);
}

/// Once an invocation has ended, no event changes it any more.
pub proof fn lemma_done_is_final(events: Seq<Event>, later: Seq<Event>)
    requires
        state_after(events) is Done,
    ensures
        state_after(events + later) == state_after(events),
        issued(events + later) == issued(events),
    decreases later.len(),
{
    if later.len() == 0 {
        assert(events + later =~= events);
    } else {
        lemma_done_is_final(events, later.drop_last());
        assert((events + later).drop_last() =~= events + later.drop_last());
        assert((events + later).last() == later.last());
    }
}

/// A refused lock ends the invocation at once. Where the first answer is
/// that the lock was not granted, the invocation has ended, as `LockTaken` or
/// as `FatalIoError` according to the reason; it has asked for the lock and
/// for nothing else: no probe, no settle, no command, no release.
pub proof fn lemma_refused_lock_touches_nothing(events: Seq<Event>)
    requires
        events.len() > 0,
        events[0] is LockRefused,
    ensures
        events[0] == Event::LockRefused(crate::lock::LockError::LockTaken) ==> state_after(events)
            == State::Done(Outcome::LockTaken),
        events[0] == Event::LockRefused(crate::lock::LockError::Io) ==> state_after(events)
            == State::Done(Outcome::FatalIoError),
        issued(events) == seq![Action::AcquireLock],
{
    let first = events.take(1);
    assert(first.drop_last() =~= Seq::<Event>::empty());
    assert(first.last() == events[0]);
    assert(state_after(first.drop_last()) == State::Idle);
    assert(issued(first.drop_last()) == seq![Action::AcquireLock]);
    assert(state_after(first) is Done);
    assert(issued(first) == seq![Action::AcquireLock]);
    lemma_done_is_final(first, events.skip(1));
    assert(first + events.skip(1) =~= events);
}

/// No failure passes in silence. Whenever a step fails, the transition gives
/// a notice: an error where the lock file could not be created, where a
/// command failed or could not be run, where the service did not become
/// active in time and where the lock file could not be removed; a warning
/// where another invocation holds the lock.
pub proof fn lemma_failures_are_reported(state: State, event: Event)
    ensures
        match state.spec_step(event) {
            None => true,
            Some(transition) => {
                &&& (transition.next matches State::Releasing(outcome) && outcome
                    != Outcome::Success) ==> (transition.notice matches Some(notice)
                    && notice.spec_level() == crate::coordinator::Level::Error)
                &&& transition.next == State::Done(Outcome::FatalIoError) && state is Idle ==> (
                transition.notice matches Some(notice) && notice.spec_level()
                    == crate::coordinator::Level::Error)
                &&& transition.next == State::Done(Outcome::LockTaken) && state is Idle ==> (
                transition.notice matches Some(notice) && notice.spec_level()
                    == crate::coordinator::Level::Warn)
                &&& state is Settling && event != Event::Exited(CommandStatus::Succeeded) ==> (
                transition.notice matches Some(notice) && notice.spec_level()
                    == crate::coordinator::Level::Error)
                &&& event == Event::LockReleased(false) ==> (transition.notice matches Some(notice)
                    && notice.spec_level() == crate::coordinator::Level::Error)
            },
        },
{
}

/// Every outcome has its cause. The work ends as a success only where the
/// service reported that it is active, or where the system is still booting;
/// as a timeout only where a pause used the budget up; as a failed command
/// only where a command failed or could not be run. The outcome that the
/// release of the lock is entered with is the one that the invocation ends
/// with, whether or not the lock file could be removed.
pub proof fn lemma_outcomes_have_one_cause(state: State, event: Event)
    ensures
        match state.spec_step(event) {
            None => true,
            Some(transition) => {
                &&& transition.next == State::Releasing(Outcome::Success) ==> {
                    ||| state is Polling && event == Event::Exited(CommandStatus::Succeeded)
                    ||| state is HotplugBranch && event == Event::Exited(CommandStatus::Failed)
                }
                &&& transition.next == State::Releasing(Outcome::Timeout) ==> {
                    &&& state matches State::Backoff(_, budget)
                    &&& budget.spec_after_pause() is None
                }
                &&& transition.next == State::Releasing(Outcome::CommandFailed) ==> {
                    ||| state is HotplugBranch && event == Event::Exited(CommandStatus::NotSpawned)
                    ||| state is ServiceActing && event != Event::Exited(CommandStatus::Succeeded)
                    ||| state is Polling && event == Event::Exited(CommandStatus::NotSpawned)
                }
                &&& state matches State::Releasing(outcome) ==> transition.next == State::Done(
                    outcome,
                )
                &&& transition.next is Done ==> state is Idle || state is Releasing
                &&& !(state is Settling) || transition.next is Settled
            },
        },
{
}

} // verus!
