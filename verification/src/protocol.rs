//! What holds of every operation of a lock handle, whatever the replies:
//! when the handle owns the lock, when it holds its identity, and in which
//! order it asks.

use vstd::prelude::*;
use crate::error::Error;
use crate::lockfile::{LockState, Phase, Pid, Reply, Request, Step};

verus! {

impl LockState {
    /// The handle and the step after as many of `replies` were given, in
    /// order, as the operation took.
    pub open spec fn run(self, step: Step, replies: Seq<Reply>) -> (LockState, Step)
        decreases replies.len(),
    {
        if step is Done || replies.len() == 0 {
            (self, step)
        } else {
            let (state, then) = self.next(replies[0]);
            state.run(then, replies.drop_first())
        }
    }

    /// Whether the handle is within a lock operation, of any of the four
    /// forms.
    pub open spec fn locking(self) -> bool {
        match self.phase {
            Phase::Taking { .. } => true,
            Phase::Locking { .. } => true,
            Phase::Clearing { .. } => true,
            Phase::Writing => true,
            Phase::Syncing { .. } => true,
            Phase::Unlocking { report, closing } => report is Some && !closing,
            Phase::Truncating { report, closing } => report is Some && !closing,
            Phase::Releasing { result, closing } => result != Ok::<bool, Error>(true) && !closing,
            _ => false,
        }
    }

    /// Whether the handle is within an unlock of the caller's.
    pub open spec fn unlocking(self) -> bool {
        match self.phase {
            Phase::Unlocking { report, closing } => report is None && !closing,
            Phase::Truncating { report, closing } => report is None && !closing,
            Phase::Releasing { closing, .. } => !closing,
            _ => false,
        }
    }

    /// Whether the handle is being closed.
    pub open spec fn closing(self) -> bool {
        match self.phase {
            Phase::Unlocking { closing, .. } => closing,
            Phase::Truncating { closing, .. } => closing,
            Phase::Releasing { closing, .. } => closing,
            Phase::Closing => true,
            Phase::Removing => true,
            _ => false,
        }
    }
}

/// A reply keeps the handle well formed. An operation that goes on waits for
/// the next reply, one that is done leaves the handle between operations, or
/// closed.
pub proof fn lemma_next_wf(state: LockState, reply: Reply)
    requires
        state.wf(),
        state.awaiting(),
    ensures
        state.next(reply).0.wf(),
        state.next(reply).1 is Do ==> state.next(reply).0.awaiting(),
        state.next(reply).1 is Done ==> !state.next(reply).0.awaiting(),
        state.next(reply).0.desc == state.desc,
        state.next(reply).0.id == state.id,
        state.next(reply).0.truncate == state.truncate,
        state.next(reply).0.temporary == state.temporary,
{
}

/// The handle holds its identity from the reply that grants it to the reply
/// that says it was given up, and at no other time. It asks to give up only
/// what it holds, and it never asks twice to be granted.
pub proof fn lemma_identity_held(state: LockState, reply: Reply)
    requires
        state.wf(),
        state.awaiting(),
    ensures
        state.next(reply).0.holds_identity() == if state.phase is Taking {
            reply == Ok::<bool, Error>(true)
        } else if state.phase is Releasing {
            false
        } else {
            state.holds_identity()
        },
        state.next(reply).1 == Step::Do(Request::Release) ==> state.holds_identity() && !(
        state.phase is Releasing),
        state.phase is Releasing ==> state.next(reply).1 != Step::Do(Request::Release),
        state.next(reply).1 != Step::Do(Request::Take),
        state.next(reply).1 != Step::Do(Request::TryTake),
{
}

/// The system is asked for the lock only by a handle that holds its
/// identity: where the identity is refused, the operation ends at once with
/// that answer, and nothing else was asked.
pub proof fn lemma_refused_identity(state: LockState, wait: bool, pid: Option<Pid>, reply: Reply)
    requires
        state.wf(),
        state.phase is Idle,
        !state.locked,
        reply != Ok::<bool, Error>(true),
    ensures
        state.begin_lock(wait, pid).0.next(reply) == (state, Step::Done(reply)),
{
}

proof fn lemma_lock_run(state: LockState, step: Step, replies: Seq<Reply>)
    requires
        state.wf(),
        state.locking(),
        step is Do,
    ensures
        state.run(step, replies).1 matches Step::Done(result) ==> {
            let end = state.run(step, replies).0;
            &&& end.phase is Idle
            &&& end.locked == (result == Ok::<bool, Error>(true))
            &&& end.desc == state.desc
            &&& end.id == state.id
            &&& end.truncate == state.truncate
        },
    decreases replies.len(),
{
    if replies.len() > 0 {
        let (then, action) = state.next(replies[0]);
        if action is Do {
            lemma_lock_run(then, action, replies.drop_first());
        } else {
            assert(then.run(action, replies.drop_first()) == (then, action));
        }
    }
}

/// However a lock operation goes, when it is done the handle is between
/// operations and owns the lock if and only if the result is `Ok(true)`: an
/// error, or the answer that the lock is held, leaves it unlocked.
pub proof fn lemma_lock_outcome(state: LockState, wait: bool, pid: Option<Pid>, replies: Seq<Reply>)
    requires
        state.wf(),
        state.phase is Idle,
        !state.locked,
    ensures
        ({
            let (begun, first) = state.begin_lock(wait, pid);
            begun.run(first, replies).1 matches Step::Done(result) ==> {
                let end = begun.run(first, replies).0;
                &&& end.phase is Idle
                &&& end.locked == (result == Ok::<bool, Error>(true))
                &&& end.desc == state.desc
                &&& end.id == state.id
                &&& end.truncate == state.truncate
            }
        }),
{
    let (begun, first) = state.begin_lock(wait, pid);
    lemma_lock_run(begun, first, replies);
}

proof fn lemma_unlock_run(state: LockState, step: Step, replies: Seq<Reply>)
    requires
        state.wf(),
        state.unlocking(),
        step is Do,
    ensures
        state.run(step, replies).1 is Done ==> {
            let end = state.run(step, replies).0;
            &&& end.phase is Idle
            &&& !end.locked
        },
    decreases replies.len(),
{
    if replies.len() > 0 {
        let (then, action) = state.next(replies[0]);
        if action is Do {
            lemma_unlock_run(then, action, replies.drop_first());
        } else {
            assert(then.run(action, replies.drop_first()) == (then, action));
        }
    }
}

/// However an unlock goes, the handle does not own the lock from its first
/// step on, and is between operations when it is done.
pub proof fn lemma_unlock_outcome(state: LockState, replies: Seq<Reply>)
    requires
        state.wf(),
        state.phase is Idle,
        state.locked,
    ensures
        ({
            let (begun, first) = state.begin_unlock(None, false);
            &&& !begun.locked
            &&& begun.run(first, replies).1 is Done ==> {
                let end = begun.run(first, replies).0;
                &&& end.phase is Idle
                &&& !end.locked
            }
        }),
{
    let (begun, first) = state.begin_unlock(None, false);
    lemma_unlock_run(begun, first, replies);
}

/// A handle that nothing hinders: it does not own the lock before the lock
/// operation, owns it as soon as that is done, and owns it no more as soon
/// as the unlock is done. `wait` chooses between the waiting and the
/// immediate form of the lock operation.
pub proof fn lemma_lock_then_unlock(state: LockState, wait: bool)
    requires
        state.wf(),
        state.phase is Idle,
        !state.locked,
    ensures
        ({
            let granted: Reply = Ok(true);
            let (s1, a1) = state.begin_lock(wait, None);
            let (s2, a2) = s1.next(granted);
            let (s3, a3) = s2.next(granted);
            let (u1, b1) = s3.begin_unlock(None, false);
            let (u2, b2) = u1.next(granted);
            let (u3, b3) = if state.truncate {
                u2.next(granted)
            } else {
                (u2, b2)
            };
            let (u4, b4) = u3.next(granted);
            &&& a1 == Step::Do(if wait { Request::Take } else { Request::TryTake })
            &&& a2 == Step::Do(if wait { Request::Lock } else { Request::TryLock })
            &&& a3 == Step::Done(granted)
            &&& s3 == LockState { locked: true, ..state }
            &&& b1 == Step::Do(Request::Unlock)
            &&& state.truncate ==> b2 == Step::Do(Request::Truncate)
            &&& b3 == Step::Do(Request::Release)
            &&& b4 == Step::Done(granted)
            &&& u4 == state
        }),
{
}

/// The order of an unlock: the system's lock first; then, where the handle
/// truncates and the unlock went well, the file is emptied; then the
/// identity is given up, whatever came before. The result is the first
/// error, if there was one.
pub proof fn lemma_unlock_order(state: LockState, unlocked: Reply, emptied: Reply, released: Reply)
    requires
        state.wf(),
        state.phase is Idle,
        state.locked,
    ensures
        ({
            let (u1, b1) = state.begin_unlock(None, false);
            let (u2, b2) = u1.next(unlocked);
            let empties = state.truncate && unlocked is Ok;
            let (u3, b3) = if empties {
                u2.next(emptied)
            } else {
                (u2, b2)
            };
            let (u4, b4) = u3.next(released);
            &&& b1 == Step::Do(Request::Unlock)
            &&& empties ==> b2 == Step::Do(Request::Truncate)
            &&& b3 == Step::Do(Request::Release)
            &&& b4 == Step::Done(
                match unlocked {
                    Err(error) => Err(error),
                    Ok(_) => if empties && emptied is Err {
                        emptied
                    } else {
                        Ok(true)
                    },
                },
            )
            &&& u4 == LockState { locked: false, ..state }
        }),
{
}

/// A lock that the system refuses, with an error or with the answer that
/// the lock is held, costs the handle its identity before the operation is
/// done with the system's answer. No identity is left behind.
pub proof fn lemma_refused_lock(
    state: LockState,
    wait: bool,
    pid: Option<Pid>,
    refusal: Reply,
    released: Reply,
)
    requires
        state.wf(),
        state.phase is Idle,
        !state.locked,
        refusal != Ok::<bool, Error>(true),
    ensures
        ({
            let (s1, a1) = state.begin_lock(wait, pid);
            let (s2, a2) = s1.next(Ok(true));
            let (s3, a3) = s2.next(refusal);
            let (s4, a4) = s3.next(released);
            &&& a3 == Step::Do(Request::Release)
            &&& a4 == Step::Done(refusal)
            &&& s4 == state
        }),
{
}

/// A lock with the process id, where nothing fails: once the lock is owned
/// the file is emptied, so that nothing of an earlier owner stays behind
/// the id; the id is written, once; the file is synchronised; and only then
/// is the operation done. Both forms, the one that waits and the one that
/// does not, go this way.
pub proof fn lemma_stamped_lock(state: LockState, wait: bool, pid: Pid)
    requires
        state.wf(),
        state.phase is Idle,
        !state.locked,
    ensures
        ({
            let granted: Reply = Ok(true);
            let (s1, a1) = state.begin_lock(wait, Some(pid));
            let (s2, a2) = s1.next(granted);
            let (s3, a3) = s2.next(granted);
            let (s4, a4) = s3.next(granted);
            let (s5, a5) = s4.next(granted);
            let (s6, a6) = s5.next(granted);
            &&& a1 == Step::Do(if wait { Request::Take } else { Request::TryTake })
            &&& a2 == Step::Do(if wait { Request::Lock } else { Request::TryLock })
            &&& a3 == Step::Do(Request::Truncate)
            &&& a4 == Step::Do(Request::WritePid(pid))
            &&& a5 == Step::Do(Request::Sync)
            &&& a6 == Step::Done(granted)
            &&& s6 == LockState { locked: true, ..state }
        }),
{
}

/// A file that cannot be emptied costs the handle the lock, and the process
/// id is not written: the lock is given back as an unlock does it, and the
/// operation is done with the error of the truncation, whatever the unlock
/// met.
pub proof fn lemma_failed_clearing(
    state: LockState,
    wait: bool,
    pid: Pid,
    error: Error,
    unlocked: Reply,
    emptied: Reply,
    released: Reply,
)
    requires
        state.wf(),
        state.phase is Idle,
        !state.locked,
    ensures
        ({
            let (s1, a1) = state.begin_lock(wait, Some(pid));
            let (s2, a2) = s1.next(Ok(true));
            let (s3, a3) = s2.next(Ok(true));
            let (s4, a4) = s3.next(Err(error));
            let (s5, a5) = s4.next(unlocked);
            let empties = state.truncate && unlocked is Ok;
            let (s6, a6) = if empties {
                s5.next(emptied)
            } else {
                (s5, a5)
            };
            let (s7, a7) = s6.next(released);
            &&& a3 == Step::Do(Request::Truncate)
            &&& s3.locked
            &&& a4 == Step::Do(Request::Unlock)
            &&& !s4.locked
            &&& empties ==> a5 == Step::Do(Request::Truncate)
            &&& a6 == Step::Do(Request::Release)
            &&& a7 == Step::Done(Err(error))
            &&& s7 == state
        }),
{
}

/// A process id that cannot be written costs the handle the lock. After the
/// failed write the file is synchronised, the lock is given back as an
/// unlock does it, and the operation is done with the error of the write,
/// whatever the unlock met. Both forms go this way.
pub proof fn lemma_failed_write(
    state: LockState,
    wait: bool,
    pid: Pid,
    error: Error,
    synced: Reply,
    unlocked: Reply,
    emptied: Reply,
    released: Reply,
)
    requires
        state.wf(),
        state.phase is Idle,
        !state.locked,
    ensures
        ({
            let (s1, a1) = state.begin_lock(wait, Some(pid));
            let (s2, a2) = s1.next(Ok(true));
            let (s3, a3) = s2.next(Ok(true));
            let (s4, a4) = s3.next(Ok(true));
            let (s5, a5) = s4.next(Err(error));
            let (s6, a6) = s5.next(synced);
            let (s7, a7) = s6.next(unlocked);
            let empties = state.truncate && unlocked is Ok;
            let (s8, a8) = if empties {
                s7.next(emptied)
            } else {
                (s7, a7)
            };
            let (s9, a9) = s8.next(released);
            &&& a3 == Step::Do(Request::Truncate)
            &&& a4 == Step::Do(Request::WritePid(pid))
            &&& s4.locked
            &&& a5 == Step::Do(Request::Sync)
            &&& a6 == Step::Do(Request::Unlock)
            &&& !s6.locked
            &&& empties ==> a7 == Step::Do(Request::Truncate)
            &&& a8 == Step::Do(Request::Release)
            &&& a9 == Step::Done(Err(error))
            &&& s9 == state
        }),
{
}

proof fn lemma_close_run(state: LockState, step: Step, replies: Seq<Reply>)
    requires
        state.wf(),
        state.closing(),
        step is Do,
    ensures
        state.run(step, replies).1 matches Step::Done(result) ==> {
            let end = state.run(step, replies).0;
            &&& end.phase is Closed
            &&& !end.locked
            &&& result == Ok::<bool, Error>(true)
        },
    decreases replies.len(),
{
    if replies.len() > 0 {
        let (then, action) = state.next(replies[0]);
        if action is Do {
            lemma_close_run(then, action, replies.drop_first());
        } else {
            assert(then.run(action, replies.drop_first()) == (then, action));
        }
    }
}

/// However the close of a handle goes, when it is done the handle is closed
/// and owns nothing, and no error has come out of it.
pub proof fn lemma_close_outcome(state: LockState, replies: Seq<Reply>)
    requires
        state.wf(),
        state.phase is Idle,
    ensures
        ({
            let (begun, first) = state.begin_close();
            &&& !begun.locked
            &&& begun.run(first, replies).1 matches Step::Done(result) ==> {
                let end = begun.run(first, replies).0;
                &&& end.phase is Closed
                &&& !end.locked
                &&& result == Ok::<bool, Error>(true)
            }
        }),
{
    let (begun, first) = state.begin_close();
    lemma_close_run(begun, first, replies);
}

/// Closing a handle that owns the lock gives the lock back first: the
/// system's lock, then the identity, then the native handle, and the file
/// itself where it is a temporary one, in this order and whatever each
/// request meets. The end is always `Ok(true)`, and a closed handle that
/// owns nothing.
pub proof fn lemma_close_releases(
    state: LockState,
    unlocked: Reply,
    emptied: Reply,
    released: Reply,
    closed: Reply,
    removed: Reply,
)
    requires
        state.wf(),
        state.phase is Idle,
        state.locked,
    ensures
        ({
            let (c1, d1) = state.begin_close();
            let (c2, d2) = c1.next(unlocked);
            let empties = state.truncate && unlocked is Ok;
            let (c3, d3) = if empties {
                c2.next(emptied)
            } else {
                (c2, d2)
            };
            let (c4, d4) = c3.next(released);
            let (c5, d5) = c4.next(closed);
            let (c6, d6) = if state.temporary {
                c5.next(removed)
            } else {
                (c5, d5)
            };
            &&& d1 == Step::Do(Request::Unlock)
            &&& empties ==> d2 == Step::Do(Request::Truncate)
            &&& d3 == Step::Do(Request::Release)
            &&& d4 == Step::Do(Request::Close)
            &&& state.temporary ==> d5 == Step::Do(Request::Remove)
            &&& d6 == Step::Done(Ok(true))
            &&& c6 == LockState { locked: false, phase: Phase::Closed, ..state }
        }),
{
}

} // verus!
