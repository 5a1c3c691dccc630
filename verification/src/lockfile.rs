//! The lock handle: which request comes next, and what each reply changes.
//!
//! A handle is `Unlocked` after it was opened, `Locked` while it owns the
//! lock, and closed for good after [`LockFile::close`]. Between two of these
//! it is in the middle of an operation: it has asked for something and waits
//! to be told how that ended. The caller performs each [`Request`] and hands
//! the reply to [`LockFile::resume`], until a [`Step::Done`] ends the
//! operation.

use vstd::prelude::*;
use crate::error::Error;
use crate::fileid::FileId;

verus! {

/// A native file handle or descriptor, as a number: wide enough for a Unix
/// descriptor and for a Windows handle.
pub type FileDesc = isize;

/// A process id.
pub type Pid = u32;

/// How a request ended. `Ok(false)` is the answer "not now" of the two
/// requests that may give it, [`Request::TryTake`] and [`Request::TryLock`];
/// every other success is `Ok(true)`.
pub type Reply = Result<bool, Error>;

/// What a handle asks its caller to do.
#[derive(Debug, Clone, Copy, PartialEq, Eq)]
pub enum Request {
    /// Claim the handle's identity in the table of held locks, and wait as
    /// long as another handle holds it.
    Take,
    /// Claim the handle's identity if it is free, without waiting.
    TryTake,
    /// Give the handle's identity up, and wake one of those who wait for it.
    Release,
    /// Lock the whole file exclusively, and wait as long as it takes.
    Lock,
    /// Lock the whole file exclusively if that can be done at once.
    TryLock,
    /// Release the lock on the file. The handle stays open.
    Unlock,
    /// Go to the start of the file and cut it to length zero.
    Truncate,
    /// Write this process id into the file, as decimal digits and a newline.
    WritePid(Pid),
    /// Have what was written reach stable storage.
    Sync,
    /// Close the native handle.
    Close,
    /// Delete the file from the file system.
    Remove,
}

/// What follows from a call: one more request, or the operation's result.
#[derive(Debug, Clone, Copy, PartialEq, Eq)]
pub enum Step {
    /// Perform this request, then call [`LockFile::resume`] with its reply.
    Do(Request),
    /// The operation is over. `Ok(false)` says that a `try_` operation found
    /// the lock held.
    Done(Reply),
}

/// Where a handle stands within an operation: the request it waits for, and
/// what it has to remember until the reply comes.
#[derive(Debug, Clone, Copy, PartialEq, Eq)]
pub enum Phase {
    /// Between operations.
    Idle,
    /// Waits for [`Request::Take`] (`wait`) or [`Request::TryTake`]. `pid` is
    /// the process id to write once the lock is owned, if any.
    Taking { wait: bool, pid: Option<Pid> },
    /// Holds its identity; waits for [`Request::Lock`] (`wait`) or
    /// [`Request::TryLock`].
    Locking { wait: bool, pid: Option<Pid> },
    /// Owns the lock; waits for the [`Request::Truncate`] that clears the
    /// file before the process id is written.
    Clearing { stamp: Pid },
    /// Owns the lock; waits for [`Request::WritePid`].
    Writing,
    /// Owns the lock; waits for [`Request::Sync`]. `failed` is the error of
    /// the write, if it failed.
    Syncing { failed: Option<Error> },
    /// Waits for [`Request::Unlock`]. `report` is the error that made the
    /// handle give the lock back, if this is no unlock of the caller's;
    /// `closing` says that the handle is being closed.
    Unlocking { report: Option<Error>, closing: bool },
    /// Waits for the [`Request::Truncate`] that follows an unlock.
    Truncating { report: Option<Error>, closing: bool },
    /// Waits for [`Request::Release`]; `result` is what the operation ends
    /// with after it.
    Releasing { result: Reply, closing: bool },
    /// Waits for [`Request::Close`].
    Closing,
    /// Waits for the [`Request::Remove`] that ends a temporary lock file.
    Removing,
    /// Closed: no operation can follow.
    Closed,
}

/// A lock handle as the contracts see it.
pub struct LockState {
    /// Whether the handle owns the lock.
    pub locked: bool,
    /// The native handle.
    pub desc: FileDesc,
    /// The identity under which the handle arbitrates within its process.
    pub id: FileId,
    /// Whether an unlock cuts the file to length zero.
    pub truncate: bool,
    /// Whether the file is deleted when the handle is closed.
    pub temporary: bool,
    /// Where the handle stands within an operation.
    pub phase: Phase,
}

/// What an unlock ends with: the error that caused it, if there was one,
/// else its own outcome.
pub open spec fn unlock_outcome(report: Option<Error>, own: Reply) -> Reply {
    match report {
        Some(error) => Err(error),
        None => match own {
            Ok(_) => Ok(true),
            Err(error) => Err(error),
        },
    }
}

impl LockState {
    /// What holds of every handle, whatever was done with it. Within an
    /// operation it owns the lock while the process id is written, and at no
    /// other time; between operations it may or may not own it.
    pub open spec fn wf(self) -> bool {
        match self.phase {
            Phase::Idle => true,
            Phase::Clearing { .. } => self.locked,
            Phase::Writing => self.locked,
            Phase::Syncing { .. } => self.locked,
            _ => !self.locked,
        }
    }

    /// Whether the handle waits for the reply to a request.
    pub open spec fn awaiting(self) -> bool {
        !(self.phase is Idle) && !(self.phase is Closed)
    }

    /// Whether the handle holds its identity in the table of held locks:
    /// from the reply that granted it to the reply that says it was given up.
    pub open spec fn holds_identity(self) -> bool {
        match self.phase {
            Phase::Idle => self.locked,
            Phase::Taking { .. } => false,
            Phase::Closing => false,
            Phase::Removing => false,
            Phase::Closed => false,
            _ => true,
        }
    }

    /// A handle right after its file was opened.
    pub open spec fn opened(desc: FileDesc, id: FileId, truncate: bool) -> LockState {
        LockState { locked: false, desc, id, truncate, temporary: false, phase: Phase::Idle }
    }

    /// A handle right after its file was opened, where the file is to be
    /// deleted when the handle is closed.
    pub open spec fn opened_temporary(desc: FileDesc, id: FileId, truncate: bool) -> LockState {
        LockState { locked: false, desc, id, truncate, temporary: true, phase: Phase::Idle }
    }

    /// This handle in another phase.
    pub open spec fn at(self, phase: Phase) -> LockState {
        LockState { phase, ..self }
    }

    /// The start of a lock operation.
    pub open spec fn begin_lock(self, wait: bool, pid: Option<Pid>) -> (LockState, Step) {
        (
            self.at(Phase::Taking { wait, pid }),
            Step::Do(
                if wait {
                    Request::Take
                } else {
                    Request::TryTake
                },
            ),
        )
    }

    /// The start of an unlock: the handle stops owning the lock before the
    /// system is asked, so that it is unlocked whatever the system answers.
    pub open spec fn begin_unlock(self, report: Option<Error>, closing: bool) -> (LockState, Step) {
        (
            LockState { locked: false, phase: Phase::Unlocking { report, closing }, ..self },
            Step::Do(Request::Unlock),
        )
    }

    /// The start of the handle's end: an unlock first, if it owns the lock.
    pub open spec fn begin_close(self) -> (LockState, Step) {
        if self.locked {
            self.begin_unlock(None, true)
        } else {
            (self.at(Phase::Closing), Step::Do(Request::Close))
        }
    }

    /// The handle gives its identity up, and the operation ends with
    /// `result` after that.
    pub open spec fn give_up(self, result: Reply, closing: bool) -> (LockState, Step) {
        (self.at(Phase::Releasing { result, closing }), Step::Do(Request::Release))
    }

    /// The operation ends with `result`.
    pub open spec fn finish(self, result: Reply) -> (LockState, Step) {
        (self.at(Phase::Idle), Step::Done(result))
    }

    /// What a reply changes, and what follows from it. Of a handle that
    /// waits for no reply nothing changes.
    pub open spec fn next(self, reply: Reply) -> (LockState, Step) {
        match self.phase {
            Phase::Idle => (self, Step::Done(reply)),
            Phase::Closed => (self, Step::Done(reply)),
            Phase::Taking { wait, pid } => match reply {
                Ok(true) => (
                    self.at(Phase::Locking { wait, pid }),
                    Step::Do(
                        if wait {
                            Request::Lock
                        } else {
                            Request::TryLock
                        },
                    ),
                ),
                _ => self.finish(reply),
            },
            Phase::Locking { wait, pid } => match reply {
                Ok(true) => {
                    let owner = LockState { locked: true, ..self };
                    match pid {
                        None => owner.finish(Ok(true)),
                        Some(pid) => (
                            owner.at(Phase::Clearing { stamp: pid }),
                            Step::Do(Request::Truncate),
                        ),
                    }
                },
                _ => self.give_up(reply, false),
            },
            Phase::Clearing { stamp } => match reply {
                Ok(_) => (self.at(Phase::Writing), Step::Do(Request::WritePid(stamp))),
                Err(error) => self.begin_unlock(Some(error), false),
            },
            Phase::Writing => {
                let failed = match reply {
                    Ok(_) => None,
                    Err(error) => Some(error),
                };
                (self.at(Phase::Syncing { failed }), Step::Do(Request::Sync))
            },
            Phase::Syncing { failed } => match failed {
                None => self.finish(Ok(true)),
                Some(error) => self.begin_unlock(Some(error), false),
            },
            Phase::Unlocking { report, closing } => match reply {
                Ok(_) => if self.truncate {
                    (self.at(Phase::Truncating { report, closing }), Step::Do(Request::Truncate))
                } else {
                    self.give_up(unlock_outcome(report, reply), closing)
                },
                Err(_) => self.give_up(unlock_outcome(report, reply), closing),
            },
            Phase::Truncating { report, closing } => self.give_up(
                unlock_outcome(report, reply),
                closing,
            ),
            Phase::Releasing { result, closing } => if closing {
                (self.at(Phase::Closing), Step::Do(Request::Close))
            } else {
                self.finish(result)
            },
            Phase::Closing => if self.temporary {
                (self.at(Phase::Removing), Step::Do(Request::Remove))
            } else {
                (self.at(Phase::Closed), Step::Done(Ok(true)))
            },
            Phase::Removing => (self.at(Phase::Closed), Step::Done(Ok(true))),
        }
    }
}

/// A handle to a file that is lockable. Does not delete the file, unless it
/// was opened as a temporary one: then the file goes when the handle is
/// closed.
#[derive(Debug)]
pub struct LockFile {
    locked: bool,
    desc: FileDesc,
    id: FileId,
    truncate: bool,
    temporary: bool,
    phase: Phase,
}

impl View for LockFile {
    type V = LockState;

    closed spec fn view(&self) -> LockState {
        LockState {
            locked: self.locked,
            desc: self.desc,
            id: self.id,
            truncate: self.truncate,
            temporary: self.temporary,
            phase: self.phase,
        }
    }
}

impl LockFile {
    #[verifier::type_invariant]
    spec fn well_formed(&self) -> bool {
        self@.wf()
    }

    /// The handle for a file that was just opened: `desc` is its native
    /// handle, `id` the identity that was resolved for it, `truncate` whether
    /// an unlock is to empty the file. The handle owns no lock.
    pub fn open(desc: FileDesc, id: FileId, truncate: bool) -> (file: Self)
        ensures
            file@ == LockState::opened(desc, id, truncate),
    {
        LockFile { locked: false, desc, id, truncate, temporary: false, phase: Phase::Idle }
    }

    /// The handle for a temporary lock file that was just opened: as
    /// [`LockFile::open`], and the file is deleted once the handle is
    /// closed, after the lock was given back and the native handle closed.
    pub fn open_temporary(desc: FileDesc, id: FileId, truncate: bool) -> (file: Self)
        ensures
            file@ == LockState::opened_temporary(desc, id, truncate),
    {
        LockFile { locked: false, desc, id, truncate, temporary: true, phase: Phase::Idle }
    }

    /// Returns whether this file handle owns the lock.
    pub fn owns_lock(&self) -> (owned: bool)
        ensures
            owned == self@.locked,
    {
        self.locked
    }

    /// Whether the handle is between operations, so that one can begin.
    pub fn is_idle(&self) -> (idle: bool)
        ensures
            idle == (self@.phase is Idle),
    {
        match self.phase {
            Phase::Idle => true,
            _ => false,
        }
    }

    /// Whether the handle was closed.
    pub fn is_closed(&self) -> (closed: bool)
        ensures
            closed == (self@.phase is Closed),
    {
        match self.phase {
            Phase::Closed => true,
            _ => false,
        }
    }

    /// The native handle.
    pub fn raw(&self) -> (desc: FileDesc)
        ensures
            desc == self@.desc,
    {
        self.desc
    }

    /// The identity under which the handle arbitrates within its process.
    pub fn id(&self) -> (id: FileId)
        ensures
            id == self@.id,
    {
        self.id
    }

    /// Whether the handle holds its identity in the table of held locks.
    /// Between operations that is so exactly while it owns the lock.
    pub fn holds_identity(&self) -> (held: bool)
        ensures
            held == self@.holds_identity(),
    {
        match self.phase {
            Phase::Idle => self.locked,
            Phase::Taking { .. } => false,
            Phase::Closing => false,
            Phase::Removing => false,
            Phase::Closed => false,
            _ => true,
        }
    }

    /// Whether the file is deleted when the handle is closed.
    pub fn is_temporary(&self) -> (temporary: bool)
        ensures
            temporary == self@.temporary,
    {
        self.temporary
    }

    fn set(&mut self, locked: bool, phase: Phase)
        requires
            (LockState { locked, phase, ..old(self)@ }).wf(),
        ensures
            final(self)@ == (LockState { locked, phase, ..old(self)@ }),
    {
        *self = LockFile {
            locked,
            desc: self.desc,
            id: self.id,
            truncate: self.truncate,
            temporary: self.temporary,
            phase,
        };
    }

    fn start_lock(&mut self, wait: bool, pid: Option<Pid>) -> (step: Step)
        requires
            old(self)@.phase is Idle,
            !old(self)@.locked,
        ensures
            (final(self)@, step) == old(self)@.begin_lock(wait, pid),
    {
        self.set(false, Phase::Taking { wait, pid });
        if wait {
            Step::Do(Request::Take)
        } else {
            Step::Do(Request::TryTake)
        }
    }

    fn start_unlock(&mut self, report: Option<Error>, closing: bool) -> (step: Step)
        ensures
            (final(self)@, step) == old(self)@.begin_unlock(report, closing),
    {
        self.set(false, Phase::Unlocking { report, closing });
        Step::Do(Request::Unlock)
    }

    fn give_up(&mut self, result: Reply, closing: bool) -> (step: Step)
        requires
            !old(self)@.locked,
        ensures
            (final(self)@, step) == old(self)@.give_up(result, closing),
    {
        self.set(false, Phase::Releasing { result, closing });
        Step::Do(Request::Release)
    }

    fn finish(&mut self, result: Reply) -> (step: Step)
        ensures
            (final(self)@, step) == old(self)@.finish(result),
    {
        self.set(self.locked, Phase::Idle);
        Step::Done(result)
    }

    /// Begins to lock this file, and waits while someone else owns the lock:
    /// another handle of this process, then another process. The handle owns
    /// the lock once the operation is done with `Ok(true)`; after an error
    /// it owns nothing and holds nothing.
    ///
    /// The handle must be between operations and must not own the lock
    /// already: to lock twice is a mistake of the caller, not a condition to
    /// report.
    pub fn lock(&mut self) -> (step: Step)
        requires
            old(self)@.phase is Idle,
            !old(self)@.locked,
        ensures
            (final(self)@, step) == old(self)@.begin_lock(true, None),
            step == Step::Do(Request::Take),
            final(self)@.wf(),
    {
        self.start_lock(true, None)
    }

    /// Begins to lock this file and to write the process id `pid` into it,
    /// which an unlock erases where the handle truncates. Waits as
    /// [`LockFile::lock`] does. Once the lock is owned the file is emptied,
    /// so that it holds the process id and nothing that an earlier owner
    /// left. If emptying or writing fails the lock is given back before the
    /// operation is done with that error.
    pub fn lock_with_pid(&mut self, pid: Pid) -> (step: Step)
        requires
            old(self)@.phase is Idle,
            !old(self)@.locked,
        ensures
            (final(self)@, step) == old(self)@.begin_lock(true, Some(pid)),
            step == Step::Do(Request::Take),
            final(self)@.wf(),
    {
        self.start_lock(true, Some(pid))
    }

    /// Begins to lock this file without ever waiting. The operation is done
    /// with `Ok(false)` where another handle of this process holds the
    /// file's identity, in which case the system is not asked at all, or
    /// where the system says that the lock is held.
    pub fn try_lock(&mut self) -> (step: Step)
        requires
            old(self)@.phase is Idle,
            !old(self)@.locked,
        ensures
            (final(self)@, step) == old(self)@.begin_lock(false, None),
            step == Step::Do(Request::TryTake),
            final(self)@.wf(),
    {
        self.start_lock(false, None)
    }

    /// Begins to lock this file without ever waiting, and to write the
    /// process id `pid` into it after the file was emptied. If emptying or
    /// writing fails the lock is given back before the operation is done
    /// with that error.
    pub fn try_lock_with_pid(&mut self, pid: Pid) -> (step: Step)
        requires
            old(self)@.phase is Idle,
            !old(self)@.locked,
        ensures
            (final(self)@, step) == old(self)@.begin_lock(false, Some(pid)),
            step == Step::Do(Request::TryTake),
            final(self)@.wf(),
    {
        self.start_lock(false, Some(pid))
    }

    /// Begins to unlock this file. The handle must be between operations and
    /// must own the lock. It stops owning the lock at once, whatever the
    /// system answers later.
    pub fn unlock(&mut self) -> (step: Step)
        requires
            old(self)@.phase is Idle,
            old(self)@.locked,
        ensures
            (final(self)@, step) == old(self)@.begin_unlock(None, false),
            step == Step::Do(Request::Unlock),
            !final(self)@.locked,
            final(self)@.wf(),
    {
        self.start_unlock(None, false)
    }

    /// Begins the end of the handle: an unlock if it owns the lock, whose
    /// errors nobody hears of, then the close of the native handle, then the
    /// removal of the file if it is a temporary one. The handle must be
    /// between operations.
    pub fn close(&mut self) -> (step: Step)
        requires
            old(self)@.phase is Idle,
        ensures
            (final(self)@, step) == old(self)@.begin_close(),
            !final(self)@.locked,
            final(self)@.wf(),
    {
        if self.locked {
            self.start_unlock(None, true)
        } else {
            self.set(false, Phase::Closing);
            Step::Do(Request::Close)
        }
    }

    /// Takes the reply to the request that the handle waits for, and says
    /// what follows.
    pub fn resume(&mut self, reply: Reply) -> (step: Step)
        requires
            old(self)@.awaiting(),
        ensures
            (final(self)@, step) == old(self)@.next(reply),
            final(self)@.wf(),
    {
        proof {
            use_type_invariant(&*self);
        }
        match self.phase {
            Phase::Idle => Step::Done(reply),
            Phase::Closed => Step::Done(reply),
            Phase::Taking { wait, pid } => match reply {
                Ok(true) => {
                    self.set(false, Phase::Locking { wait, pid });
                    if wait {
                        Step::Do(Request::Lock)
                    } else {
                        Step::Do(Request::TryLock)
                    }
                },
                _ => self.finish(reply),
            },
            Phase::Locking { wait, pid } => match reply {
                Ok(true) => match pid {
                    None => {
                        self.set(true, Phase::Idle);
                        Step::Done(Ok(true))
                    },
                    Some(pid) => {
                        self.set(true, Phase::Clearing { stamp: pid });
                        Step::Do(Request::Truncate)
                    },
                },
                _ => self.give_up(reply, false),
            },
            Phase::Clearing { stamp } => match reply {
                Ok(_) => {
                    self.set(true, Phase::Writing);
                    Step::Do(Request::WritePid(stamp))
                },
                Err(error) => self.start_unlock(Some(error), false),
            },
            Phase::Writing => {
                let failed = match reply {
                    Ok(_) => None,
                    Err(error) => Some(error),
                };
                self.set(true, Phase::Syncing { failed });
                Step::Do(Request::Sync)
            },
            Phase::Syncing { failed } => match failed {
                None => self.finish(Ok(true)),
                Some(error) => self.start_unlock(Some(error), false),
            },
            Phase::Unlocking { report, closing } => {
                let emptying = match reply {
                    Ok(_) => self.truncate,
                    Err(_) => false,
                };
                if emptying {
                    self.set(false, Phase::Truncating { report, closing });
                    Step::Do(Request::Truncate)
                } else {
                    self.give_up(unlock_result(report, reply), closing)
                }
            },
            Phase::Truncating { report, closing } => self.give_up(
                unlock_result(report, reply),
                closing,
            ),
            Phase::Releasing { result, closing } => if closing {
                self.set(false, Phase::Closing);
                Step::Do(Request::Close)
            } else {
                self.finish(result)
            },
            Phase::Closing => if self.temporary {
                self.set(false, Phase::Removing);
                Step::Do(Request::Remove)
            } else {
                self.set(false, Phase::Closed);
                Step::Done(Ok(true))
            },
            Phase::Removing => {
                self.set(false, Phase::Closed);
                Step::Done(Ok(true))
            },
        }
    }
}

fn unlock_result(report: Option<Error>, own: Reply) -> (result: Reply)
    ensures
        result == unlock_outcome(report, own),
{
    match report {
        Some(error) => Err(error),
        None => match own {
            Ok(_) => Ok(true),
            Err(error) => Err(error),
        },
    }
}

} // verus!
