use fslock::{default_lockfile_truncate_state, lockfile_truncate, LockfileTruncate};

#[test]
fn truncation_is_on_by_default() {
    let setting = LockfileTruncate::default();
    assert!(default_lockfile_truncate_state(&setting));
}

#[test]
fn truncation_can_be_turned_off_and_on() {
    let mut setting = LockfileTruncate::default();
    lockfile_truncate(&mut setting, false);
    assert!(!default_lockfile_truncate_state(&setting));
    lockfile_truncate(&mut setting, true);
    assert!(default_lockfile_truncate_state(&setting));
}
