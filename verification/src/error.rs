//! The error that every operation of this crate reports.

use vstd::prelude::*;

verus! {

/// An I/O error. It is known by the code that the operating system gave it,
/// and by nothing else.
#[derive(Debug, Clone, Copy, PartialEq, Eq, Structural)]
pub struct Error {
    code: i32,
}

#[verifier::external_type_specification]
#[verifier::external_body]
pub struct ExIoError(std::io::Error);

/// `std::io::Error::last_os_error`: the error of the calling thread's last
/// failed system call. It depends on what the thread did before, so nothing
/// is claimed of the result.
#[verifier::external_body]
fn io_last_os_error() -> std::io::Error {
    std::io::Error::last_os_error()
}

/// `std::io::Error::raw_os_error`: the operating system's code inside an
/// error, if it has one. Nothing is claimed of the result.
#[verifier::external_body]
fn io_raw_os_error(error: &std::io::Error) -> Option<i32> {
    error.raw_os_error()
}

impl Error {
    /// The operating system's code for this error.
    pub closed spec fn code(&self) -> i32 {
        self.code
    }

    /// Creates an error from a raw OS error code.
    pub fn from_raw_os_error(code: i32) -> (error: Self)
        ensures
            error.code() == code,
    {
        Self { code }
    }

    /// Creates an error from what the system recorded of a failure: the
    /// code, if it recorded one, else 0.
    pub fn from_recorded(recorded: Option<i32>) -> (error: Self)
        ensures
            error.code() == match recorded {
                Some(code) => code,
                None => 0,
            },
    {
        match recorded {
            Some(code) => Self::from_raw_os_error(code),
            None => Self::from_raw_os_error(0),
        }
    }

    /// Creates an error from the last OS error code of the calling thread,
    /// with code 0 where the system recorded none. Which code that is
    /// depends on what the thread did before: see [`Error::from_recorded`]
    /// for what becomes of it.
    pub fn last_os_error() -> Error {
        Self::from_recorded(io_raw_os_error(&io_last_os_error()))
    }

    /// Raw OS error code. It is always there; the `Option` is kept for
    /// compatibility with `std::io::Error`.
    pub fn raw_os_error(&self) -> (code: Option<i32>)
        ensures
            code == Some(self.code()),
    {
        Some(self.code)
    }
}

/// Two errors with the same code are the same error.
pub proof fn lemma_error_by_code(a: Error, b: Error)
    requires
        a.code() == b.code(),
    ensures
        a == b,
{
}

} // verus!
