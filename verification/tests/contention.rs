//! Several invocations that compete for one lock file.

use eruption_hotplug_helper::command::CommandStatus;
use eruption_hotplug_helper::coordinator::{Action, Event, Outcome, State};
use eruption_hotplug_helper::lock::LockError;

/// A lock file that is created atomically: free, or held by one invocation.
struct SharedLock {
    holder: Option<usize>,
}

/// Performs the pending step of invocation `who` and hands the result back.
/// Commands succeed and the service is active at once.
fn advance(states: &mut [State], asked: &mut [Vec<Action>], lock: &mut SharedLock, who: usize) {
    let action = match states[who].pending() {
        Some(action) => action,
        None => return,
    };
    asked[who].push(action);
    let event = match action {
        Action::AcquireLock => match lock.holder {
            None => {
                lock.holder = Some(who);
                Event::LockGranted
            }
            Some(_) => Event::LockRefused(LockError::LockTaken),
        },
        Action::ProbeSleepSentinel => Event::SleepSentinel(false),
        Action::Run(_) => Event::Exited(CommandStatus::Succeeded),
        Action::Sleep(_) => Event::Elapsed,
        Action::ReleaseLock => {
            assert_eq!(lock.holder, Some(who));
            lock.holder = None;
            Event::LockReleased(true)
        }
    };
    states[who] = states[who].step(event).expect("the answer fits the pending step").next;
}

fn holders(states: &[State]) -> usize {
    states.iter().filter(|state| state.holds_lock()).count()
}

#[test]
fn second_invocation_is_turned_away_while_the_first_works() {
    let mut states = [State::Idle, State::Idle];
    let mut asked = [Vec::new(), Vec::new()];
    let mut lock = SharedLock { holder: None };

    advance(&mut states, &mut asked, &mut lock, 0);
    assert_eq!(states[0], State::LockAcquired);
    advance(&mut states, &mut asked, &mut lock, 1);
    assert_eq!(states[1], State::Done(Outcome::LockTaken));
    assert_eq!(asked[1], vec![Action::AcquireLock]);
    assert_eq!(holders(&states), 1);

    while states[0].pending().is_some() {
        advance(&mut states, &mut asked, &mut lock, 0);
        assert!(holders(&states) <= 1);
    }
    assert_eq!(states[0], State::Done(Outcome::Success));
    assert_eq!(lock.holder, None);
    assert_eq!(asked[1], vec![Action::AcquireLock]);
}

#[test]
fn at_most_one_invocation_holds_the_lock_in_every_interleaving() {
    // Every schedule of three invocations over twelve turns, by its digits in base three.
    let turns = 12u32;
    for schedule in 0..3usize.pow(turns) {
        let mut states = [State::Idle, State::Idle, State::Idle];
        let mut asked = [Vec::new(), Vec::new(), Vec::new()];
        let mut lock = SharedLock { holder: None };
        let mut rest = schedule;
        for _ in 0..turns {
            let who = rest % 3;
            rest /= 3;
            advance(&mut states, &mut asked, &mut lock, who);
            assert!(holders(&states) <= 1);
            for other in 0..3 {
                if states[other].holds_lock() {
                    assert_eq!(lock.holder, Some(other));
                }
                if states[other] == State::Done(Outcome::LockTaken) {
                    assert_eq!(asked[other], vec![Action::AcquireLock]);
                }
            }
        }
    }
}

#[test]
fn the_lock_is_free_again_for_a_later_invocation() {
    let mut states = [State::Idle, State::Idle];
    let mut asked = [Vec::new(), Vec::new()];
    let mut lock = SharedLock { holder: None };
    while states[0].pending().is_some() {
        advance(&mut states, &mut asked, &mut lock, 0);
    }
    assert_eq!(states[0], State::Done(Outcome::Success));
    advance(&mut states, &mut asked, &mut lock, 1);
    assert_eq!(states[1], State::LockAcquired);
    assert_eq!(lock.holder, Some(1));
}
