use fslock::{FileId, HeldLocks};

#[test]
fn new_table_holds_nothing() {
    let held: HeldLocks<&str> = HeldLocks::new();
    assert!(!held.contains((0, 0)));
    assert_eq!(held.holder((0, 0)), None);
}

#[test]
fn an_identity_is_taken_once() {
    let mut held = HeldLocks::new();
    assert!(held.try_take((8, 15), "first"));
    assert!(!held.try_take((8, 15), "second"));
    assert!(held.contains((8, 15)));
    assert_eq!(held.holder((8, 15)), Some(&"first"));
}

#[test]
fn identities_differ_by_device_and_by_inode() {
    let mut held = HeldLocks::new();
    assert!(held.try_take((8, 15), 'a'));
    assert!(held.try_take((8, 16), 'b'));
    assert!(held.try_take((9, 15), 'c'));
    assert_eq!(held.holder((8, 16)), Some(&'b'));
    assert_eq!(held.holder((9, 15)), Some(&'c'));
    assert_eq!(held.holder((9, 16)), None);
}

#[test]
fn identities_that_differ_in_one_half_only_do_not_collide() {
    let mut held = HeldLocks::new();
    assert!(held.try_take((0, 1), 'a'));
    assert!(held.try_take((1, 0), 'b'));
    assert!(held.try_take((u64::MAX, 0), 'c'));
    assert!(held.try_take((0, u64::MAX), 'd'));
    assert!(held.try_take((u64::MAX, u64::MAX), 'e'));
    assert!(!held.try_take((1, 0), 'f'));
    assert_eq!(held.release((0, 1)), Some('a'));
    assert_eq!(held.holder((1, 0)), Some(&'b'));
    assert_eq!(held.holder((u64::MAX, 0)), Some(&'c'));
    assert_eq!(held.holder((0, u64::MAX)), Some(&'d'));
    assert_eq!(held.holder((u64::MAX, u64::MAX)), Some(&'e'));
    assert_eq!(held.holder((0, 1)), None);
}

#[test]
fn release_hands_out_the_notifier() {
    let mut held = HeldLocks::new();
    held.try_take((1, 1), 10);
    held.try_take((2, 2), 20);
    held.try_take((3, 3), 30);
    assert_eq!(held.release((2, 2)), Some(20));
    assert_eq!(held.release((2, 2)), None);
    assert!(held.contains((1, 1)));
    assert!(!held.contains((2, 2)));
    assert_eq!(held.holder((3, 3)), Some(&30));
    assert!(held.try_take((2, 2), 21));
    assert_eq!(held.holder((2, 2)), Some(&21));
}

#[test]
fn take_lock_waits_on_the_holder() {
    let mut held = HeldLocks::new();
    let id = FileId::Exclusive((5, 6));
    assert_eq!(id.take_lock(&mut held, "mine"), None);
    assert_eq!(id.take_lock(&mut held, "yours"), Some(&"mine"));
    assert_eq!(held.holder((5, 6)), Some(&"mine"));
    assert_eq!(id.release_lock(&mut held), Some("mine"));
    assert_eq!(id.take_lock(&mut held, "yours"), None);
    assert_eq!(held.holder((5, 6)), Some(&"yours"));
}

#[test]
fn try_take_lock_claims_only_a_free_identity() {
    let mut held = HeldLocks::new();
    let id = FileId::Exclusive((5, 6));
    let other = FileId::Exclusive((5, 7));
    assert!(id.try_take_lock(&mut held, 1));
    assert!(!id.try_take_lock(&mut held, 2));
    assert!(other.try_take_lock(&mut held, 3));
    assert_eq!(id.release_lock(&mut held), Some(1));
    assert_eq!(id.release_lock(&mut held), None);
    assert!(id.try_take_lock(&mut held, 4));
}

#[test]
fn no_arbitration_leaves_the_table_alone() {
    let mut held = HeldLocks::new();
    let id = FileId::NonExclusive;
    assert!(id.try_take_lock(&mut held, 1));
    assert!(id.try_take_lock(&mut held, 2));
    assert_eq!(id.take_lock(&mut held, 3), None);
    assert_eq!(id.release_lock(&mut held), None);
    assert!(!held.contains((0, 0)));
}
