//! What the results of the Windows system calls mean, and how a path
//! becomes a wide string.
//!
//! The calls themselves are made elsewhere. Each function here is given what
//! a call returned, right after it returned.

use vstd::prelude::*;
use crate::error::Error;
use crate::fileid::{Exclusivity, FileId};
use crate::lockfile::FileDesc;

verus! {

/// The system's `TRUE`.
pub const TRUE: i32 = 1;

/// The handle that is none: the system's `INVALID_HANDLE_VALUE`.
pub const INVALID_HANDLE_VALUE: isize = -1;

/// The answer of a wait that failed: the system's `WAIT_FAILED`.
pub const WAIT_FAILED: u32 = 0xFFFF_FFFF;

/// The answer of a seek that failed: the system's
/// `INVALID_SET_FILE_POINTER`.
pub const INVALID_SET_FILE_POINTER: u32 = 0xFFFF_FFFF;

/// The error code of data that makes no sense: the system's
/// `ERROR_INVALID_DATA`.
pub const ERROR_INVALID_DATA: u32 = 13;

/// The error code that says that another handle holds the lock: the
/// system's `ERROR_LOCK_VIOLATION`.
pub const ERROR_LOCK_VIOLATION: u32 = 33;

/// What a call that answers with a boolean means: `TRUE` is a success,
/// anything else a failure, whose error the system has recorded for the
/// calling thread. This is how the system's answer to a lock and an unlock
/// is read.
pub fn status(result: i32) -> (outcome: Result<(), Error>)
    ensures
        outcome is Ok <==> result == TRUE,
{
    if result == TRUE {
        Ok(())
    } else {
        Err(Error::last_os_error())
    }
}

/// What the system's answer to a wait on an event means: anything but
/// `WAIT_FAILED` is a success.
pub fn waited(result: u32) -> (outcome: Result<(), Error>)
    ensures
        outcome is Ok <==> result != WAIT_FAILED,
{
    if result != WAIT_FAILED {
        Ok(())
    } else {
        Err(Error::last_os_error())
    }
}

/// What the system's answer to moving the file pointer means: anything but
/// `INVALID_SET_FILE_POINTER` is a success.
pub fn sought(result: u32) -> (outcome: Result<(), Error>)
    ensures
        outcome is Ok <==> result != INVALID_SET_FILE_POINTER,
{
    if result != INVALID_SET_FILE_POINTER {
        Ok(())
    } else {
        Err(Error::last_os_error())
    }
}

/// The identity of an open file: none under either mode, because the system
/// locks per handle by itself and no arbitration is needed.
pub fn get_id(ex: Exclusivity) -> (id: FileId)
    ensures
        id == FileId::NonExclusive,
{
    FileId::NonExclusive
}

/// What the system's answer to opening the lock file, or to making an
/// event, means: any handle but the invalid one is the open object.
pub fn open(handle: isize) -> (outcome: Result<FileDesc, Error>)
    ensures
        outcome is Ok <==> handle != INVALID_HANDLE_VALUE,
        outcome matches Ok(desc) ==> desc == handle,
{
    if handle != INVALID_HANDLE_VALUE {
        Ok(handle)
    } else {
        Err(Error::last_os_error())
    }
}

/// What a lock attempt that does not wait came to, where `result` is the
/// system's answer and `error` the code of its last error: `Ok(true)` for a
/// lock that was granted, `Ok(false)` for one that another handle holds,
/// and the error for anything else.
pub open spec fn try_lock_meaning(result: i32, error: u32) -> Result<bool, i32> {
    if result == TRUE {
        Ok(true)
    } else if error == ERROR_LOCK_VIOLATION {
        Ok(false)
    } else {
        Err(error as i32)
    }
}

/// Reads the outcome of a lock attempt that does not wait: see
/// [`try_lock_meaning`]. After `Ok(true)` the caller still waits on the
/// event of the call, and reads that with [`waited`].
pub fn try_lock(result: i32, error: u32) -> (outcome: Result<bool, Error>)
    ensures
        match try_lock_meaning(result, error) {
            Ok(locked) => outcome == Ok::<bool, Error>(locked),
            Err(code) => outcome matches Err(failure) && failure.code() == code,
        },
{
    if result == TRUE {
        Ok(true)
    } else if error == ERROR_LOCK_VIOLATION {
        Ok(false)
    } else {
        Err(Error::from_raw_os_error(error as i32))
    }
}

/// Whether a wide string can be a path: a nul stands at its end or nowhere.
pub open spec fn convertible(units: Seq<u16>) -> bool {
    forall|i: int| 0 <= i < units.len() - 1 ==> units[i] != 0
}

/// `units` with a nul at the end: their own if they end in one, else an
/// added one.
pub open spec fn terminated(units: Seq<u16>) -> Seq<u16> {
    if units.len() > 0 && units.last() == 0 {
        units
    } else {
        units.push(0u16)
    }
}

/// Makes the wide string that the system takes for a path: the units of the
/// path and one nul after them. A path with a nul before its end is refused
/// with `ERROR_INVALID_DATA`.
pub fn make_os_string(units: &[u16]) -> (string: Result<Vec<u16>, Error>)
    ensures
        convertible(units@) ==> (string matches Ok(wide) && wide@ == terminated(units@)),
        !convertible(units@) ==> (string matches Err(error) && error.code()
            == ERROR_INVALID_DATA),
{
    let mut wide: Vec<u16> = Vec::new();
    let mut i: usize = 0;
    while i < units.len()
        invariant
            i <= units.len(),
            forall|k: int| 0 <= k < i - 1 ==> units@[k] != 0,
            i > 0 && units@[i - 1] == 0 ==> wide@ == units@.take(i - 1),
            i > 0 && units@[i - 1] != 0 ==> wide@ == units@.take(i as int),
            i == 0 ==> wide@ == units@.take(0),
        decreases units.len() - i,
    {
        if i > 0 && units[i - 1] == 0 {
            assert(!convertible(units@));
            return Err(Error::from_raw_os_error(ERROR_INVALID_DATA as i32));
        }
        let unit = units[i];
        if unit != 0 {
            wide.push(unit);
            assert(wide@ =~= units@.take(i + 1));
        }
        i += 1;
    }
    wide.push(0u16);
    proof {
        assert(units@.take(units@.len() as int) =~= units@);
        if units@.len() > 0 && units@.last() == 0 {
            assert(units@.take(units@.len() - 1).push(0u16) =~= units@);
        }
    }
    Ok(wide)
}

} // verus!
