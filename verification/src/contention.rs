//! Several invocations at once: a burst of hotplug events starts the helper
//! many times over, and the lock file is all that the invocations share.
//!
//! The file system is taken to create the lock file atomically, as
//! `LockFile::can_answer` says. Under that assumption the invocations
//! exclude each other.

use vstd::prelude::*;
use crate::coordinator::{Event, Outcome, State};
use crate::lock::{LockError, LockFile};
use crate::replay::advance;

verus! {

/// The lock file and the invocations that compete for it, each named by its
/// process id. An invocation that has not been heard of is `State::Idle`.
pub struct World {
    pub lock: LockFile,
    pub invocations: Map<nat, State>,
}

/// The answer to a request for the lock that `event` carries.
pub open spec fn lock_answer(event: Event) -> Option<Result<(), LockError>> {
    match event {
        Event::LockGranted => Some(Ok(())),
        Event::LockRefused(error) => Some(Err(error)),
        _ => None,
    }
}

impl World {
    /// The world before any invocation has started: the lock is free.
    pub open spec fn initial() -> World {
        World { lock: LockFile::free(), invocations: Map::empty() }
    }

    /// The state of invocation `pid`.
    pub open spec fn state_of(self, pid: nat) -> State {
        if self.invocations.dom().contains(pid) {
            self.invocations[pid]
        } else {
            State::Idle
        }
    }

    /// Whether invocation `pid` can see `event` next: the event is a result
    /// of its pending step, and where that step asks for the lock, the file
    /// system can give this answer.
    pub open spec fn can_happen(self, pid: nat, event: Event) -> bool {
        &&& self.state_of(pid).spec_accepts(event)
        &&& lock_answer(event) matches Some(answer) ==> self.lock.can_answer(pid, answer)
    }

    /// The world after invocation `pid` has seen `event`. An event that
    /// cannot happen changes nothing.
    pub open spec fn after(self, pid: nat, event: Event) -> World {
        if !self.can_happen(pid, event) {
            self
        } else {
            World {
                lock: match event {
                    Event::LockGranted => self.lock.after_acquire(pid, Ok(())),
                    Event::LockRefused(error) => self.lock.after_acquire(pid, Err(error)),
                    Event::LockReleased(removed) => self.lock.after_release(pid, removed),
                    _ => self.lock,
                },
                invocations: self.invocations.insert(pid, advance(self.state_of(pid), event)),
            }
        }
    }

    /// The world after the invocations have seen `steps`, each step being an
    /// event and the invocation that sees it, in any interleaving.
    pub open spec fn after_all(steps: Seq<(nat, Event)>) -> World
        decreases steps.len(),
    {
        if steps.len() == 0 {
            World::initial()
        } else {
            World::after_all(steps.drop_last()).after(steps.last().0, steps.last().1)
        }
    }

    /// Every invocation that holds the lock is the one that the lock file
    /// names.
    pub open spec fn holders_agree(self) -> bool {
        forall|pid: nat| #[trigger] self.state_of(pid).spec_holds_lock() ==> self.lock.holder == Some(pid)
    }
}

/// A step keeps the lock file and the invocations in agreement.
proof fn lemma_step_keeps_agreement(world: World, pid: nat, event: Event)
    requires
        world.holders_agree(),
    ensures
        world.after(pid, event).holders_agree(),
{
    let next = world.after(pid, event);
    if world.can_happen(pid, event) {
        assert forall|other: nat| #[trigger]
            next.state_of(other).spec_holds_lock() implies next.lock.holder == Some(other) by {
            if other == pid {
                assert(next.state_of(pid) == advance(world.state_of(pid), event));
                if world.state_of(pid).spec_holds_lock() {
                    assert(world.lock.holder == Some(pid));
                }
            } else {
                assert(next.state_of(other) == world.state_of(other));
                assert(world.state_of(other).spec_holds_lock());
                assert(world.lock.holder == Some(other));
                if world.state_of(pid).spec_holds_lock() {
                    assert(world.lock.holder == Some(pid));
                }
            }
        }
    }
}

/// In every world that the invocations can reach, the lock file and the
/// invocations agree.
pub proof fn lemma_holders_agree(steps: Seq<(nat, Event)>)
    ensures
        World::after_all(steps).holders_agree(),
    decreases steps.len(),
{
    if steps.len() == 0 {
        assert forall|pid: nat| !(#[trigger] World::initial().state_of(pid).spec_holds_lock()) by {}
    } else {
        lemma_holders_agree(steps.drop_last());
        lemma_step_keeps_agreement(
            World::after_all(steps.drop_last()),
            steps.last().0,
            steps.last().1,
        );
    }
}

/// Mutual exclusion. However the steps of the invocations interleave, no two
/// of them hold the lock at the same time.
pub proof fn lemma_mutual_exclusion(steps: Seq<(nat, Event)>, first: nat, second: nat)
    requires
        first != second,
    ensures
        !(World::after_all(steps).state_of(first).spec_holds_lock() && World::after_all(
            steps,
        ).state_of(second).spec_holds_lock()),
{
    lemma_holders_agree(steps);
    let world = World::after_all(steps);
    if world.state_of(first).spec_holds_lock() && world.state_of(second).spec_holds_lock() {
        assert(world.lock.holder == Some(first));
        assert(world.lock.holder == Some(second));
    }
}

/// The contender is turned away. An invocation that asks for the lock while
/// another one holds it is not granted it, whatever the file system answers.
/// It ends with that answer, as `LockTaken` unless the file system failed,
/// without ever holding the lock; the holder is not disturbed.
pub proof fn lemma_contender_is_turned_away(
    steps: Seq<(nat, Event)>,
    holder: nat,
    contender: nat,
    event: Event,
)
    requires
        holder != contender,
        World::after_all(steps).state_of(holder).spec_holds_lock(),
        World::after_all(steps).state_of(contender) is Idle,
        World::after_all(steps).can_happen(contender, event),
    ensures
        event is LockRefused,
        event == Event::LockRefused(LockError::LockTaken) ==> World::after_all(steps).after(
            contender,
            event,
        ).state_of(contender) == State::Done(Outcome::LockTaken),
        event == Event::LockRefused(LockError::Io) ==> World::after_all(steps).after(
            contender,
            event,
        ).state_of(contender) == State::Done(Outcome::FatalIoError),
        World::after_all(steps).after(contender, event).state_of(holder) == World::after_all(
            steps,
        ).state_of(holder),
        World::after_all(steps).after(contender, event).lock == World::after_all(steps).lock,
{
    lemma_holders_agree(steps);
    let world = World::after_all(steps);
    assert(world.lock.holder == Some(holder));
}

} // verus!
