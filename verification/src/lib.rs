//! Files used as locks: the decisions of an advisory, cross-platform file
//! lock, kept apart from the system calls that carry them out.
//!
//! Nothing in this crate opens, locks or writes a file. A [`LockFile`] says
//! which request comes next (claim the file's identity, lock the descriptor,
//! write the process id, ...) and is told how each request ended; the caller
//! performs the requests. [`HeldLocks`] is the table by which the handles of
//! one process keep out of each other's way, [`Writer`] cuts text into the
//! pieces in which it reaches the file, and the modules [`unix`] and
//! [`windows`] read the answers of the two families of systems.
//!
//! Locks are per handle, not per process, where handles are opened with
//! [`Exclusivity::PerFileDesc`]: the module [`exclusion`] proves that no two
//! such handles of a process own the lock on one file at once.

pub mod constants;
pub mod error;
pub mod exclusion;
pub mod fileid;
pub mod fmt;
pub mod lockfile;
pub mod protocol;
pub mod string;
pub mod unix;
pub mod windows;

pub use crate::constants::{default_lockfile_truncate_state, lockfile_truncate, LockfileTruncate};
pub use crate::error::Error;
pub use crate::fileid::{Exclusivity, FileId, HeldLocks, RawFileId};
pub use crate::fmt::Writer;
pub use crate::lockfile::{FileDesc, LockFile, LockState, Phase, Pid, Reply, Request, Step};
pub use crate::string::{EitherOsStr, IntoOsString, OsStr, OsString, ToOsStr};
