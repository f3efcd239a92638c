//! Whole invocations: the states, steps and notices that a sequence of
//! events leads to.
//!
//! An invocation starts in `State::Idle`. Events are taken one by one; an
//! event that is no result of the pending step is skipped.

use vstd::prelude::*;
use crate::command::CommandStatus;
use crate::coordinator::{Action, Event, Notice, State};

verus! {

/// The state that follows `event`: the next state of the step where the
/// event is accepted, the same state where it is not.
pub open spec fn advance(state: State, event: Event) -> State {
    match state.spec_step(event) {
        Some(transition) => transition.next,
        None => state,
    }
}

/// The state of an invocation that has seen `events`.
pub open spec fn state_after(events: Seq<Event>) -> State
    decreases events.len(),
{
    if events.len() == 0 {
        State::Idle
    } else {
        advance(state_after(events.drop_last()), events.last())
    }
}

/// The steps that an invocation has asked for by the time it has seen
/// `events`, in order. The last one is still pending unless the invocation
/// has ended.
pub open spec fn issued(events: Seq<Event>) -> Seq<Action>
    decreases events.len(),
{
    if events.len() == 0 {
        seq![Action::AcquireLock]
    } else {
        let earlier = issued(events.drop_last());
        let before = state_after(events.drop_last());
        match before.spec_step(events.last()) {
            Some(transition) => match transition.next.spec_pending() {
                Some(action) => earlier.push(action),
                None => earlier,
            },
            None => earlier,
        }
    }
}

/// The notices that an invocation has given by the time it has seen
/// `events`, in order.
pub open spec fn notices(events: Seq<Event>) -> Seq<Notice>
    decreases events.len(),
{
    if events.len() == 0 {
        Seq::empty()
    } else {
        let earlier = notices(events.drop_last());
        let before = state_after(events.drop_last());
        match before.spec_step(events.last()) {
            Some(transition) => match transition.notice {
                Some(notice) => earlier.push(notice),
                None => earlier,
            },
            None => earlier,
        }
    }
}

/// How often `action` occurs in `actions`.
pub open spec fn count(actions: Seq<Action>, action: Action) -> nat
    decreases actions.len(),
{
    if actions.len() == 0 {
        0
    } else {
        count(actions.drop_last(), action) + if actions.last() == action {
            1nat
        } else {
            0nat
        }
    }
}

/// The time that `actions` spend asleep, in milliseconds.
pub open spec fn slept_millis(actions: Seq<Action>) -> nat
    decreases actions.len(),
{
    if actions.len() == 0 {
        0
    } else {
        slept_millis(actions.drop_last()) + match actions.last() {
            Action::Sleep(millis) => millis as nat,
            _ => 0nat,
        }
    }
}

/// How often `second` comes directly after `first` in `actions`.
pub open spec fn count_pairs(actions: Seq<Action>, first: Action, second: Action) -> nat
    decreases actions.len(),
{
    if actions.len() < 2 {
        0
    } else {
        count_pairs(actions.drop_last(), first, second) + if actions[actions.len() - 2] == first
            && actions.last() == second {
            1nat
        } else {
            0nat
        }
    }
}

/// What the look for the sleep marker found, once the invocation has
/// looked: `Some(true)` if the marker exists.
pub open spec fn sentinel_answer(events: Seq<Event>) -> Option<bool>
    decreases events.len(),
{
    if events.len() == 0 {
        None
    } else {
        match (state_after(events.drop_last()), events.last()) {
            (State::LockAcquired, Event::SleepSentinel(present)) => Some(present),
            _ => sentinel_answer(events.drop_last()),
        }
    }
}

/// The status of the query whether the system has finished booting, once
/// the invocation has made it.
pub open spec fn boot_answer(events: Seq<Event>) -> Option<CommandStatus>
    decreases events.len(),
{
    if events.len() == 0 {
        None
    } else {
        match (state_after(events.drop_last()), events.last()) {
            (State::HotplugBranch, Event::Exited(status)) => Some(status),
            _ => boot_answer(events.drop_last()),
        }
    }
}

/// An invocation that was played through.
#[derive(Debug, PartialEq, Eq)]
pub struct Replay {
    /// The state that the invocation reached.
    pub state: State,
    /// The steps that it asked for.
    pub actions: Vec<Action>,
    /// The notices that it gave.
    pub notices: Vec<Notice>,
}

/// Plays an invocation through: starts in `State::Idle`, takes `events` one
/// by one, and records the steps asked for and the notices given.
pub fn replay(events: &Vec<Event>) -> (played: Replay)
    ensures
        played.state == state_after(events@),
        played.actions@ == issued(events@),
        played.notices@ == notices(events@),
{
    let mut state = State::Idle;
    let mut actions: Vec<Action> = Vec::new();
    let mut given: Vec<Notice> = Vec::new();
    actions.push(Action::AcquireLock);
    assert(events@.take(0) =~= Seq::<Event>::empty());
    assert(actions@ =~= issued(events@.take(0)));
    let mut index: usize = 0;
    while index < events.len()
        invariant
            index <= events.len(),
            state == state_after(events@.take(index as int)),
            actions@ == issued(events@.take(index as int)),
            given@ == notices(events@.take(index as int)),
        decreases events.len() - index,
    {
        let event = events[index];
        proof {
            let longer = events@.take(index + 1);
            assert(longer.drop_last() =~= events@.take(index as int));
            assert(longer.last() == event);
        }
        match state.step(event) {
            Some(transition) => {
                state = transition.next;
                match state.pending() {
                    Some(action) => {
                        actions.push(action);
                    },
                    None => {},
                }
                match transition.notice {
                    Some(notice) => {
                        given.push(notice);
                    },
                    None => {},
                }
            },
            None => {},
        }
        index = index + 1;
    }
    assert(events@.take(index as int) =~= events@);
    Replay { state, actions, notices: given }
}

/// Counts how often `action` occurs in `actions`.
pub fn count_action(actions: &Vec<Action>, action: Action) -> (times: usize)
    ensures
        times == count(actions@, action),
{
    let mut times: usize = 0;
    let mut index: usize = 0;
    assert(actions@.take(0) =~= Seq::<Action>::empty());
    while index < actions.len()
        invariant
            index <= actions.len(),
            times <= index,
            times == count(actions@.take(index as int), action),
        decreases actions.len() - index,
    {
        proof {
            let longer = actions@.take(index + 1);
            assert(longer.drop_last() =~= actions@.take(index as int));
            assert(longer.last() == actions@[index as int]);
        }
        if actions[index] == action {
            times = times + 1;
        }
        index = index + 1;
    }
    assert(actions@.take(index as int) =~= actions@);
    times
}

} // verus!
