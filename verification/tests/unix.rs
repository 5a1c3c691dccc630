use fslock::unix::{open, status, try_lock, try_lock_outcome, write_outcome, Busy};
use fslock::Error;

const LINUX: Busy = Busy { would_block: 11, again: 11, denied: 13 };

#[test]
fn error_keeps_its_code() {
    assert_eq!(Error::from_raw_os_error(13).raw_os_error(), Some(13));
    assert_eq!(Error::from_raw_os_error(-1).raw_os_error(), Some(-1));
    assert_eq!(Error::from_raw_os_error(2), Error::from_raw_os_error(2));
    assert_ne!(Error::from_raw_os_error(2), Error::from_raw_os_error(3));
}

#[test]
fn recorded_code_is_kept_and_none_is_zero() {
    assert_eq!(Error::from_recorded(Some(11)), Error::from_raw_os_error(11));
    assert_eq!(Error::from_recorded(Some(-5)).raw_os_error(), Some(-5));
    assert_eq!(Error::from_recorded(None).raw_os_error(), Some(0));
}

#[test]
fn last_os_error_has_a_code() {
    assert!(Error::last_os_error().raw_os_error().is_some());
}

#[test]
fn status_is_a_failure_only_when_negative() {
    assert_eq!(status(0), Ok(()));
    assert_eq!(status(17), Ok(()));
    assert!(status(-1).is_err());
}

#[test]
fn open_gives_the_descriptor() {
    assert_eq!(open(0), Ok(0));
    assert_eq!(open(5), Ok(5));
    assert!(open(-1).is_err());
}

#[test]
fn granted_lock_is_true() {
    assert_eq!(try_lock_outcome(0, 0, LINUX), Ok(true));
    assert_eq!(try_lock_outcome(0, 11, LINUX), Ok(true));
    assert_eq!(try_lock(0), Ok(true));
}

#[test]
fn held_lock_is_false_and_no_error() {
    assert_eq!(try_lock_outcome(-1, 11, LINUX), Ok(false));
    assert_eq!(try_lock_outcome(-1, 13, LINUX), Ok(false));
    let other = Busy { would_block: 35, again: 36, denied: 13 };
    assert_eq!(try_lock_outcome(-1, 35, other), Ok(false));
    assert_eq!(try_lock_outcome(-1, 36, other), Ok(false));
    assert_eq!(try_lock_outcome(-1, 11, other), Err(Error::from_raw_os_error(11)));
}

#[test]
fn other_failures_of_a_lock_attempt_are_errors() {
    assert_eq!(try_lock_outcome(-1, 9, LINUX), Err(Error::from_raw_os_error(9)));
    assert_eq!(try_lock_outcome(-1, 4, LINUX), Err(Error::from_raw_os_error(4)));
    assert_eq!(try_lock_outcome(-1, 0, LINUX), Err(Error::from_raw_os_error(0)));
    assert_ne!(try_lock(-1), Ok(true));
}

#[test]
fn native_codes_are_those_of_the_c_library() {
    let busy = Busy::native();
    assert_eq!(busy.would_block, libc::EWOULDBLOCK);
    assert_eq!(busy.again, libc::EAGAIN);
    assert_eq!(busy.denied, libc::EACCES);
}

#[test]
fn write_goes_on_with_what_is_left() {
    assert_eq!(write_outcome(10, 10, 0, 11), Ok(0));
    assert_eq!(write_outcome(10, 4, 0, 11), Ok(6));
    assert_eq!(write_outcome(10, 0, 0, 11), Ok(10));
    assert_eq!(write_outcome(10, 12, 0, 11), Ok(0));
    assert_eq!(fslock::unix::write(10, 3), Ok(7));
    assert_eq!(fslock::unix::write(0, 0), Ok(0));
}

#[test]
fn write_that_was_put_off_is_tried_again() {
    assert_eq!(write_outcome(10, -1, 11, 11), Ok(10));
}

#[test]
fn failed_write_is_an_error() {
    assert_eq!(write_outcome(10, -1, 28, 11), Err(Error::from_raw_os_error(28)));
}

#[test]
fn failed_write_never_passes_for_a_complete_one() {
    match fslock::unix::write(10, -1) {
        Ok(rest) => assert_eq!(rest, 10),
        Err(error) => assert!(error.raw_os_error().is_some()),
    }
}
