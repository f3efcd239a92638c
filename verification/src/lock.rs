//! The lock that serialises invocations, and the marker that a sleep hook
//! leaves behind.

use vstd::prelude::*;

verus! {

/// The file whose existence says that an invocation is at work.
pub const LOCK_PATH: &'static str = "/run/lock/eruption-hotplug-helper.lock";

/// The file that a sleep hook writes before the machine is suspended. The
/// helper only looks for it; it never creates or removes it.
pub const SLEEP_SENTINEL_PATH: &'static str = "/run/lock/eruption-sleep.lock";

/// Why the lock could not be taken.
#[derive(Clone, Copy, Debug, PartialEq, Eq, Structural)]
pub enum LockError {
    /// Another invocation holds the lock.
    LockTaken,
    /// The lock file could not be created for another reason.
    Io,
}

/// The lock file as the file system keeps it: free, or held by one
/// invocation, which is named by its process id.
pub struct LockFile {
    pub holder: Option<nat>,
}

impl LockFile {
    /// The lock file that nobody holds.
    pub open spec fn free() -> LockFile {
        LockFile { holder: None }
    }

    /// Whether the file system can give `answer` to invocation `pid` that
    /// asks for the lock. Creation is atomic: it succeeds only while nobody
    /// holds the lock, and it reports the lock as taken only while somebody
    /// does. It can fail for other reasons at any time.
    pub open spec fn can_answer(self, pid: nat, answer: Result<(), LockError>) -> bool {
        match answer {
            Ok(()) => self.holder is None,
            Err(LockError::LockTaken) => self.holder is Some,
            Err(LockError::Io) => true,
        }
    }

    /// The lock file after invocation `pid` has asked for the lock and got
    /// `answer`.
    pub open spec fn after_acquire(self, pid: nat, answer: Result<(), LockError>) -> LockFile {
        if answer is Ok {
            LockFile { holder: Some(pid) }
        } else {
            self
        }
    }

    /// The lock file after invocation `pid` has tried to remove it. A failed
    /// removal leaves the file where it is.
    pub open spec fn after_release(self, pid: nat, removed: bool) -> LockFile {
        if removed && self.holder == Some(pid) {
            LockFile { holder: None }
        } else {
            self
        }
    }
}

} // verus!
