use fslock::windows::{
    make_os_string, open, status, try_lock, waited, ERROR_INVALID_DATA, ERROR_LOCK_VIOLATION,
    INVALID_HANDLE_VALUE, TRUE, WAIT_FAILED,
};
use fslock::Error;

#[test]
fn windows_codes_have_the_documented_values() {
    assert_eq!(TRUE, 1);
    assert_eq!(INVALID_HANDLE_VALUE, -1);
    assert_eq!(WAIT_FAILED, 4294967295);
    assert_eq!(ERROR_INVALID_DATA, 13);
    assert_eq!(ERROR_LOCK_VIOLATION, 33);
}

#[test]
fn only_true_is_a_success() {
    assert_eq!(status(1), Ok(()));
    assert!(status(0).is_err());
    assert!(status(2).is_err());
    assert_eq!(waited(0), Ok(()));
    assert_eq!(waited(258), Ok(()));
    assert!(waited(WAIT_FAILED).is_err());
    assert_eq!(open(468), Ok(468));
    assert!(open(-1).is_err());
}

#[test]
fn lock_violation_is_false_and_no_error() {
    assert_eq!(try_lock(1, 0), Ok(true));
    assert_eq!(try_lock(1, 33), Ok(true));
    assert_eq!(try_lock(0, 33), Ok(false));
    assert_eq!(try_lock(0, 5), Err(Error::from_raw_os_error(5)));
    assert_eq!(try_lock(0, 0), Err(Error::from_raw_os_error(0)));
}

#[test]
fn wide_path_gets_one_nul() {
    let path: Vec<u16> = "a.lock".encode_utf16().collect();
    let mut expected = path.clone();
    expected.push(0);
    assert_eq!(make_os_string(&path), Ok(expected.clone()));
    assert_eq!(make_os_string(&expected), Ok(expected));
    assert_eq!(make_os_string(&[]), Ok(vec![0]));
    assert_eq!(make_os_string(&[0]), Ok(vec![0]));
}

#[test]
fn wide_path_with_inner_nul_is_invalid_data() {
    let invalid = Err(Error::from_raw_os_error(13));
    assert_eq!(make_os_string(&[97, 0, 98]), invalid);
    assert_eq!(make_os_string(&[0, 98]), invalid);
    assert_eq!(make_os_string(&[97, 0, 0]), invalid);
}
