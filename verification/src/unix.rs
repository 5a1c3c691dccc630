//! What the results of the Unix system calls mean: which one is a success,
//! which failure of a lock attempt only says that the lock is held, and how
//! far a write got.
//!
//! The calls themselves are made elsewhere. Each function here is given what
//! a call returned, right after it returned.

use vstd::prelude::*;
use crate::error::Error;
use crate::lockfile::FileDesc;

verus! {

/// The error codes with which the system says that a lock cannot be had
/// now.
#[derive(Debug, Clone, Copy, PartialEq, Eq)]
pub struct Busy {
    /// The operation would block.
    pub would_block: i32,
    /// The resource is unavailable for the moment.
    pub again: i32,
    /// The file is locked by another process.
    pub denied: i32,
}

/// `libc::EWOULDBLOCK`. Its value differs between systems, so nothing is
/// claimed of it.
#[verifier::external_body]
fn ewouldblock() -> i32 {
    libc::EWOULDBLOCK
}

/// `libc::EAGAIN`. Its value differs between systems, so nothing is claimed
/// of it.
#[verifier::external_body]
fn eagain() -> i32 {
    libc::EAGAIN
}

/// `libc::EACCES`. Its value differs between systems, so nothing is claimed
/// of it.
#[verifier::external_body]
fn eacces() -> i32 {
    libc::EACCES
}

/// The code of the calling thread's last failed system call, 0 where there
/// is none.
fn errno() -> i32 {
    match Error::last_os_error().raw_os_error() {
        Some(code) => code,
        None => 0,
    }
}

impl Busy {
    /// The codes of the system that this library was built for.
    pub fn native() -> Busy {
        Busy { would_block: ewouldblock(), again: eagain(), denied: eacces() }
    }

    /// Whether `code` is one of the three.
    pub open spec fn holds(self, code: i32) -> bool {
        code == self.would_block || code == self.again || code == self.denied
    }
}

/// What a call that answers with a status means: a negative status is a
/// failure, whose error the system has recorded for the calling thread;
/// anything else is a success. This is how the system's answer to a lock, an
/// unlock, a seek, a truncation, a synchronisation and a metadata query is
/// read.
pub fn status(result: i64) -> (outcome: Result<(), Error>)
    ensures
        outcome is Ok <==> result >= 0,
{
    if result >= 0 {
        Ok(())
    } else {
        Err(Error::last_os_error())
    }
}

/// What the system's answer to opening the lock file means: a descriptor
/// that is not negative is the open file.
pub fn open(fd: i32) -> (outcome: Result<FileDesc, Error>)
    ensures
        outcome is Ok <==> fd >= 0,
        outcome matches Ok(desc) ==> desc == fd,
{
    if fd >= 0 {
        Ok(fd as isize)
    } else {
        Err(Error::last_os_error())
    }
}

/// What a lock attempt that does not wait came to, where `result` is the
/// system's status, `errno` the error code it recorded, and `busy` the codes
/// that only say "held": `Ok(true)` for a lock that was granted, `Ok(false)`
/// for one that is held elsewhere, and the error for anything else.
pub open spec fn try_lock_meaning(result: i32, errno: i32, busy: Busy) -> Result<bool, i32> {
    if result >= 0 {
        Ok(true)
    } else if busy.holds(errno) {
        Ok(false)
    } else {
        Err(errno)
    }
}

/// Reads the outcome of a lock attempt that does not wait: see
/// [`try_lock_meaning`].
pub fn try_lock_outcome(result: i32, errno: i32, busy: Busy) -> (outcome: Result<bool, Error>)
    ensures
        match try_lock_meaning(result, errno, busy) {
            Ok(locked) => outcome == Ok::<bool, Error>(locked),
            Err(code) => outcome matches Err(error) && error.code() == code,
        },
{
    if result >= 0 {
        Ok(true)
    } else if errno == busy.would_block || errno == busy.again || errno == busy.denied {
        Ok(false)
    } else {
        Err(Error::from_raw_os_error(errno))
    }
}

/// What the system's answer to a lock attempt that does not wait means,
/// read right after the call. That the lock is held elsewhere is no error:
/// it is `Ok(false)`.
pub fn try_lock(result: i32) -> (outcome: Result<bool, Error>)
    ensures
        outcome == Ok::<bool, Error>(true) <==> result >= 0,
{
    if result >= 0 {
        Ok(true)
    } else {
        try_lock_outcome(result, errno(), Busy::native())
    }
}

/// How many bytes are still to be written after a write of `len` bytes
/// returned `written`, with `errno` recorded and `again` the code that says
/// "not now": what was written is done with, a write that was only put off
/// leaves everything to do, and any other failure is the error. An answer
/// that makes no sense, more bytes than were given, counts as all of them.
pub open spec fn write_meaning(len: usize, written: isize, errno: i32, again: i32) -> Result<
    usize,
    i32,
> {
    if written >= len {
        Ok(0)
    } else if written >= 0 {
        Ok((len - written) as usize)
    } else if errno == again {
        Ok(len)
    } else {
        Err(errno)
    }
}

/// Reads the outcome of one write: see [`write_meaning`].
pub fn write_outcome(len: usize, written: isize, errno: i32, again: i32) -> (outcome: Result<
    usize,
    Error,
>)
    ensures
        match write_meaning(len, written, errno, again) {
            Ok(rest) => outcome == Ok::<usize, Error>(rest),
            Err(code) => outcome matches Err(error) && error.code() == code,
        },
{
    if written >= 0 {
        if written as usize >= len {
            Ok(0)
        } else {
            Ok(len - written as usize)
        }
    } else if errno == again {
        Ok(len)
    } else {
        Err(Error::from_raw_os_error(errno))
    }
}

/// What is left to write after the system answered `written` to a write of
/// `len` bytes, read right after the call. The caller goes on with the last
/// `rest` bytes until none is left. A write that failed has written
/// nothing: it is an error, or, where it was only put off, everything is
/// still to do.
pub fn write(len: usize, written: isize) -> (outcome: Result<usize, Error>)
    ensures
        written >= 0 ==> outcome == Ok::<usize, Error>(
            if written >= len {
                0
            } else {
                (len - written) as usize
            },
        ),
        written < 0 ==> outcome is Err || outcome == Ok::<usize, Error>(len),
        outcome matches Ok(rest) ==> rest <= len,
{
    if written >= 0 {
        write_outcome(len, written, 0, 0)
    } else {
        write_outcome(len, written, errno(), eagain())
    }
}

} // verus!
