use fslock::{
    Error, Exclusivity, FileId, HeldLocks, LockFile, Reply, Request, Step, Writer,
};

/// One file as the operating system keeps it: the handle that owns its lock
/// and the bytes it holds.
struct Disk {
    owner: Option<isize>,
    content: Vec<u8>,
    closed: Vec<isize>,
    requests: Vec<Request>,
}

impl Disk {
    fn new() -> Disk {
        Disk { owner: None, content: Vec::new(), closed: Vec::new(), requests: Vec::new() }
    }

    fn read_to_string(&self) -> String {
        String::from_utf8(self.content.clone()).unwrap()
    }
}

fn perform(file: &LockFile, held: &mut HeldLocks<u32>, disk: &mut Disk, request: Request) -> Reply {
    disk.requests.push(request);
    match request {
        Request::Take | Request::TryTake => Ok(file.id().try_take_lock(held, 7)),
        Request::Release => {
            file.id().release_lock(held);
            Ok(true)
        },
        Request::Lock | Request::TryLock => match disk.owner {
            None => {
                disk.owner = Some(file.raw());
                Ok(true)
            },
            Some(_) => Ok(false),
        },
        Request::Unlock => {
            disk.owner = None;
            Ok(true)
        },
        Request::Truncate => {
            disk.content.clear();
            Ok(true)
        },
        Request::WritePid(pid) => {
            for piece in Writer(file.raw()).write_pid(pid) {
                disk.content.extend(piece);
            }
            Ok(true)
        },
        Request::Sync => Ok(true),
        Request::Close => {
            disk.closed.push(file.raw());
            Ok(true)
        },
        Request::Remove => Ok(true),
    }
}

fn run(file: &mut LockFile, held: &mut HeldLocks<u32>, disk: &mut Disk, first: Step) -> Reply {
    let mut step = first;
    loop {
        match step {
            Step::Done(result) => return result,
            Step::Do(request) => {
                let reply = perform(file, held, disk, request);
                step = file.resume(reply);
            },
        }
    }
}

fn script(file: &mut LockFile, first: Step, replies: &[Reply]) -> (Vec<Request>, Option<Reply>) {
    let mut asked = Vec::new();
    let mut step = first;
    for reply in replies {
        match step {
            Step::Done(_) => panic!("more replies than requests"),
            Step::Do(request) => {
                asked.push(request);
                step = file.resume(*reply);
            },
        }
    }
    match step {
        Step::Done(result) => (asked, Some(result)),
        Step::Do(request) => {
            asked.push(request);
            (asked, None)
        },
    }
}

fn exclusive(desc: isize, truncate: bool) -> LockFile {
    LockFile::open(desc, FileId::Exclusive((2049, 131)), truncate)
}

/// What another process does with the lock file: it opens the file, tries
/// to lock it, says how that went, and ends. It has a table of its own, and
/// shares the disk.
fn check_try_lock_example(disk: &mut Disk, expected: &[u8]) {
    let mut held = HeldLocks::new();
    let mut lockfile = exclusive(10, true);
    let first = lockfile.try_lock();
    let locked = run(&mut lockfile, &mut held, disk, first).unwrap();
    let stdout: &[u8] = if locked { b"SUCCESS\n" } else { b"FAILURE\n" };
    let first = lockfile.close();
    assert_eq!(run(&mut lockfile, &mut held, disk, first), Ok(true));
    assert_eq!(stdout, expected);
}

/// As [`check_try_lock_example`], with the other process writing its id,
/// 8124. `pid_to_differ` is the text that its output must not be.
fn check_try_lock_with_pid_example(disk: &mut Disk, pid_to_differ: Option<&str>) {
    let mut held = HeldLocks::new();
    let mut lockfile = exclusive(10, true);
    let first = lockfile.try_lock_with_pid(8124);
    let locked = run(&mut lockfile, &mut held, disk, first).unwrap();
    let stdout = if locked { disk.read_to_string() } else { String::from("FAILURE\n") };
    let first = lockfile.close();
    assert_eq!(run(&mut lockfile, &mut held, disk, first), Ok(true));
    match pid_to_differ {
        Some(pid) => {
            assert!(stdout.trim().len() > 0);
            assert!(stdout.trim().chars().all(|ch| ch.is_ascii_digit()));
            assert_ne!(stdout.trim(), pid);
        },
        None => assert_eq!(stdout, "FAILURE\n"),
    }
}

#[test]
fn other_process() {
    let mut held = HeldLocks::new();
    let mut disk = Disk::new();
    let mut file = exclusive(3, true);
    let first = file.lock();
    assert_eq!(run(&mut file, &mut held, &mut disk, first), Ok(true));
    check_try_lock_example(&mut disk, b"FAILURE\n");
    let first = file.unlock();
    assert_eq!(run(&mut file, &mut held, &mut disk, first), Ok(true));
    check_try_lock_example(&mut disk, b"SUCCESS\n");
}

#[test]
fn other_process_pid() {
    let mut held = HeldLocks::new();
    let mut disk = Disk::new();
    let mut file = exclusive(3, true);
    let first = file.try_lock_with_pid(4711);
    assert_eq!(run(&mut file, &mut held, &mut disk, first), Ok(true));

    let content = disk.read_to_string();
    assert!(content.trim().len() > 0);
    assert!(content.trim().chars().all(|ch| ch.is_ascii_digit()));

    check_try_lock_example(&mut disk, b"FAILURE\n");
    let content_again = disk.read_to_string();
    assert!(content_again.trim().len() > 0);
    assert!(content_again.trim().chars().all(|ch| ch.is_ascii_digit()));
    let first = file.unlock();
    assert_eq!(run(&mut file, &mut held, &mut disk, first), Ok(true));
    check_try_lock_example(&mut disk, b"SUCCESS\n");

    let child_content = disk.read_to_string();
    assert!(child_content.trim().len() == 0);

    let first = file.try_lock_with_pid(4711);
    assert_eq!(run(&mut file, &mut held, &mut disk, first), Ok(true));

    let content_again = disk.read_to_string();
    assert_eq!(content_again, content);

    check_try_lock_with_pid_example(&mut disk, None);
    let content_again = disk.read_to_string();
    assert!(content_again.trim().len() > 0);
    assert!(content_again.trim().chars().all(|ch| ch.is_ascii_digit()));
    let first = file.unlock();
    assert_eq!(run(&mut file, &mut held, &mut disk, first), Ok(true));
    check_try_lock_with_pid_example(&mut disk, Some(&content));

    let child_content = disk.read_to_string();
    assert!(child_content.trim().len() == 0);
}

#[test]
fn other_process_but_curr_reads() {
    let mut held = HeldLocks::new();
    let mut disk = Disk::new();
    let mut file = exclusive(3, true);
    let first = file.lock();
    assert_eq!(run(&mut file, &mut held, &mut disk, first), Ok(true));

    check_try_lock_example(&mut disk, b"FAILURE\n");
    let mut _content = disk.read_to_string();
    check_try_lock_example(&mut disk, b"FAILURE\n");

    let first = file.unlock();
    assert_eq!(run(&mut file, &mut held, &mut disk, first), Ok(true));
    check_try_lock_example(&mut disk, b"SUCCESS\n");
}

#[test]
fn identity_is_held_from_the_grant_to_the_release() {
    let mut file = exclusive(3, false);
    assert!(!file.holds_identity());
    file.lock();
    assert!(!file.holds_identity());
    file.resume(Ok(true));
    assert!(file.holds_identity());
    file.resume(Ok(true));
    assert!(file.holds_identity());
    assert!(file.owns_lock());
    file.unlock();
    assert!(file.holds_identity());
    assert!(!file.owns_lock());
    file.resume(Ok(true));
    assert!(file.holds_identity());
    file.resume(Ok(true));
    assert!(!file.holds_identity());
    assert!(file.is_idle());
}

#[test]
fn opened_handle_owns_nothing() {
    let file = exclusive(3, true);
    assert!(!file.owns_lock());
    assert!(file.is_idle());
    assert!(!file.is_closed());
    assert_eq!(file.raw(), 3);
    assert_eq!(file.id(), FileId::Exclusive((2049, 131)));
}

#[test]
fn lock_then_unlock_changes_ownership() {
    let mut held = HeldLocks::new();
    let mut disk = Disk::new();
    let mut file = exclusive(3, true);
    assert!(!file.owns_lock());
    let first = file.lock();
    assert_eq!(first, Step::Do(Request::Take));
    assert_eq!(run(&mut file, &mut held, &mut disk, first), Ok(true));
    assert!(file.owns_lock());
    assert!(held.contains((2049, 131)));
    assert_eq!(disk.owner, Some(3));
    let first = file.unlock();
    assert_eq!(first, Step::Do(Request::Unlock));
    assert!(!file.owns_lock());
    assert_eq!(run(&mut file, &mut held, &mut disk, first), Ok(true));
    assert!(!file.owns_lock());
    assert!(!held.contains((2049, 131)));
    assert_eq!(disk.owner, None);
    assert_eq!(
        disk.requests,
        vec![
            Request::Take,
            Request::Lock,
            Request::Unlock,
            Request::Truncate,
            Request::Release,
        ]
    );
}

#[test]
fn unlock_without_truncation_skips_the_truncate() {
    let mut file = exclusive(3, false);
    let first = file.lock();
    script(&mut file, first, &[Ok(true), Ok(true)]);
    let first = file.unlock();
    let (asked, result) = script(&mut file, first, &[Ok(true), Ok(true)]);
    assert_eq!(asked, vec![Request::Unlock, Request::Release]);
    assert_eq!(result, Some(Ok(true)));
}

#[test]
fn second_handle_in_same_process_is_refused_until_first_is_dropped() {
    let mut held = HeldLocks::new();
    let mut disk = Disk::new();
    let mut a = exclusive(3, true);
    let mut b = exclusive(4, true);

    let first = a.try_lock();
    assert_eq!(run(&mut a, &mut held, &mut disk, first), Ok(true));
    assert!(a.owns_lock());

    let asked_before = disk.requests.len();
    let first = b.try_lock();
    assert_eq!(run(&mut b, &mut held, &mut disk, first), Ok(false));
    assert!(!b.owns_lock());
    assert_eq!(&disk.requests[asked_before ..], &[Request::TryTake]);

    let first = a.close();
    assert_eq!(run(&mut a, &mut held, &mut disk, first), Ok(true));
    assert!(a.is_closed());
    assert!(!a.owns_lock());
    assert_eq!(disk.closed, vec![3]);

    let first = b.try_lock();
    assert_eq!(run(&mut b, &mut held, &mut disk, first), Ok(true));
    assert!(b.owns_lock());
    assert_eq!(disk.owner, Some(4));
}

#[test]
fn second_handle_locks_after_first_unlocks() {
    let mut held = HeldLocks::new();
    let mut disk = Disk::new();
    let mut a = exclusive(3, false);
    let mut b = exclusive(4, false);
    let first = a.lock();
    assert_eq!(run(&mut a, &mut held, &mut disk, first), Ok(true));
    let first = b.try_lock();
    assert_eq!(run(&mut b, &mut held, &mut disk, first), Ok(false));
    let first = a.unlock();
    assert_eq!(run(&mut a, &mut held, &mut disk, first), Ok(true));
    let first = b.lock();
    assert_eq!(run(&mut b, &mut held, &mut disk, first), Ok(true));
    assert!(b.owns_lock());
    assert!(!a.owns_lock());
}

#[test]
fn os_dependent_handles_do_not_arbitrate() {
    let mut held: HeldLocks<u32> = HeldLocks::new();
    let a = LockFile::open(3, FileId::NonExclusive, true);
    let b = LockFile::open(4, FileId::NonExclusive, true);
    assert!(a.id().try_take_lock(&mut held, 1));
    assert!(b.id().try_take_lock(&mut held, 2));
    assert_eq!(a.id().release_lock(&mut held), None);
}

#[test]
fn other_process_holding_the_lock_gives_false() {
    let mut held = HeldLocks::new();
    let mut disk = Disk::new();
    disk.owner = Some(99);
    let mut file = exclusive(3, true);
    let first = file.try_lock();
    assert_eq!(run(&mut file, &mut held, &mut disk, first), Ok(false));
    assert!(!file.owns_lock());
    assert!(!held.contains((2049, 131)));
    assert_eq!(disk.requests, vec![Request::TryTake, Request::TryLock, Request::Release]);
    disk.owner = None;
    let first = file.try_lock();
    assert_eq!(run(&mut file, &mut held, &mut disk, first), Ok(true));
    assert!(file.owns_lock());
}

#[test]
fn failed_lock_gives_the_identity_back() {
    let mut file = exclusive(3, true);
    let first = file.lock();
    let error = Error::from_raw_os_error(9);
    let (asked, result) = script(&mut file, first, &[Ok(true), Err(error), Ok(true)]);
    assert_eq!(asked, vec![Request::Take, Request::Lock, Request::Release]);
    assert_eq!(result, Some(Err(error)));
    assert!(!file.owns_lock());
    assert!(file.is_idle());
}

#[test]
fn read_pid() {
    let mut held = HeldLocks::new();
    let mut disk = Disk::new();
    disk.content = b"hello world\n".to_vec();
    let mut file = exclusive(3, true);
    let first = file.lock_with_pid(4711);
    assert_eq!(run(&mut file, &mut held, &mut disk, first), Ok(true));

    let content_a = disk.read_to_string();
    let content_b = disk.read_to_string();

    assert!(content_a.trim().len() > 0);
    assert!(content_a.trim().chars().all(|ch| ch.is_ascii_digit()));

    assert_eq!(content_a, content_b);
    assert_eq!(content_a, "4711\n");
    assert_eq!(
        disk.requests,
        vec![
            Request::Take,
            Request::Lock,
            Request::Truncate,
            Request::WritePid(4711),
            Request::Sync,
        ]
    );
}

#[test]
fn stamp_replaces_longer_content_left_by_an_earlier_owner() {
    let mut held = HeldLocks::new();
    let mut disk = Disk::new();
    disk.content = b"2147483647\n".to_vec();
    let mut file = exclusive(3, false);
    let first = file.lock_with_pid(7);
    assert_eq!(run(&mut file, &mut held, &mut disk, first), Ok(true));
    assert!(file.owns_lock());
    assert_eq!(disk.read_to_string(), format!("{}\n", 7));
    let first = file.unlock();
    assert_eq!(run(&mut file, &mut held, &mut disk, first), Ok(true));
    assert_eq!(disk.read_to_string(), "7\n");
    let mut other = exclusive(4, false);
    let first = other.lock_with_pid(12);
    assert_eq!(run(&mut other, &mut held, &mut disk, first), Ok(true));
    assert_eq!(disk.read_to_string(), "12\n");
}

#[test]
fn try_read_pid() {
    let mut held = HeldLocks::new();
    let mut disk = Disk::new();
    disk.content = b"left over from an earlier owner\n".to_vec();
    let mut file = exclusive(3, true);
    let first = file.try_lock_with_pid(1);
    assert_eq!(run(&mut file, &mut held, &mut disk, first), Ok(true));

    let content_a = disk.read_to_string();
    let content_b = disk.read_to_string();

    assert!(content_a.trim().len() > 0);
    assert!(content_a.trim().chars().all(|ch| ch.is_ascii_digit()));

    assert_eq!(content_a, content_b);
    assert_eq!(content_a, "1\n");
    assert_eq!(
        disk.requests,
        vec![
            Request::TryTake,
            Request::TryLock,
            Request::Truncate,
            Request::WritePid(1),
            Request::Sync,
        ]
    );
}

#[test]
fn unlock_empties_a_stamped_file() {
    let mut held = HeldLocks::new();
    let mut disk = Disk::new();
    let mut file = exclusive(3, true);
    let first = file.lock_with_pid(31337);
    assert_eq!(run(&mut file, &mut held, &mut disk, first), Ok(true));
    assert_eq!(disk.content.len(), 6);
    let first = file.unlock();
    assert_eq!(run(&mut file, &mut held, &mut disk, first), Ok(true));
    assert_eq!(disk.content.len(), 0);
}

#[test]
fn failed_write_gives_the_lock_back() {
    let mut file = exclusive(3, true);
    let first = file.lock_with_pid(12);
    let error = Error::from_raw_os_error(28);
    let other = Error::from_raw_os_error(5);
    let (asked, result) = script(
        &mut file,
        first,
        &[Ok(true), Ok(true), Ok(true), Err(error), Ok(true), Err(other), Ok(true)],
    );
    assert_eq!(
        asked,
        vec![
            Request::Take,
            Request::Lock,
            Request::Truncate,
            Request::WritePid(12),
            Request::Sync,
            Request::Unlock,
            Request::Release,
        ]
    );
    assert_eq!(result, Some(Err(error)));
    assert!(!file.owns_lock());
}

#[test]
fn failed_clearing_skips_the_write() {
    let mut file = exclusive(3, false);
    let first = file.try_lock_with_pid(12);
    let error = Error::from_raw_os_error(22);
    let (asked, result) =
        script(&mut file, first, &[Ok(true), Ok(true), Err(error), Ok(true), Ok(true)]);
    assert_eq!(
        asked,
        vec![
            Request::TryTake,
            Request::TryLock,
            Request::Truncate,
            Request::Unlock,
            Request::Release,
        ]
    );
    assert_eq!(result, Some(Err(error)));
    assert!(!file.owns_lock());
}

#[test]
fn failed_clearing_costs_the_waiting_form_the_lock_too() {
    let mut file = exclusive(3, true);
    let first = file.lock_with_pid(12);
    let error = Error::from_raw_os_error(22);
    let (asked, result) = script(
        &mut file,
        first,
        &[Ok(true), Ok(true), Err(error), Ok(true), Ok(true), Ok(true)],
    );
    assert_eq!(
        asked,
        vec![
            Request::Take,
            Request::Lock,
            Request::Truncate,
            Request::Unlock,
            Request::Truncate,
            Request::Release,
        ]
    );
    assert_eq!(result, Some(Err(error)));
    assert!(!file.owns_lock());
    assert!(file.is_idle());
}

#[test]
fn failed_unlock_still_releases_the_identity() {
    let mut file = exclusive(3, true);
    let first = file.lock();
    script(&mut file, first, &[Ok(true), Ok(true)]);
    let first = file.unlock();
    let error = Error::from_raw_os_error(9);
    let (asked, result) = script(&mut file, first, &[Err(error), Ok(true)]);
    assert_eq!(asked, vec![Request::Unlock, Request::Release]);
    assert_eq!(result, Some(Err(error)));
    assert!(!file.owns_lock());
    assert!(file.is_idle());
}

#[test]
fn failed_truncate_is_reported_by_unlock() {
    let mut file = exclusive(3, true);
    let first = file.lock();
    script(&mut file, first, &[Ok(true), Ok(true)]);
    let first = file.unlock();
    let error = Error::from_raw_os_error(27);
    let (asked, result) = script(&mut file, first, &[Ok(true), Err(error), Ok(true)]);
    assert_eq!(asked, vec![Request::Unlock, Request::Truncate, Request::Release]);
    assert_eq!(result, Some(Err(error)));
}

#[test]
fn close_of_a_locked_handle_unlocks_and_swallows_errors() {
    let mut file = exclusive(3, true);
    let first = file.lock();
    script(&mut file, first, &[Ok(true), Ok(true)]);
    let first = file.close();
    assert!(!file.owns_lock());
    let error = Error::from_raw_os_error(9);
    let (asked, result) = script(&mut file, first, &[Err(error), Ok(true), Err(error)]);
    assert_eq!(asked, vec![Request::Unlock, Request::Release, Request::Close]);
    assert_eq!(result, Some(Ok(true)));
    assert!(file.is_closed());
    assert!(!file.is_idle());
}

#[test]
fn close_of_an_unlocked_handle_only_closes() {
    let mut file = exclusive(3, true);
    let first = file.close();
    let (asked, result) = script(&mut file, first, &[Ok(true)]);
    assert_eq!(asked, vec![Request::Close]);
    assert_eq!(result, Some(Ok(true)));
    assert!(file.is_closed());
}

#[test]
fn temporary_file_is_removed_after_the_close() {
    let mut file = LockFile::open_temporary(3, FileId::Exclusive((2049, 131)), false);
    assert!(file.is_temporary());
    let first = file.try_lock();
    script(&mut file, first, &[Ok(true), Ok(true)]);
    assert!(file.owns_lock());
    let first = file.close();
    let error = Error::from_raw_os_error(2);
    let (asked, result) = script(&mut file, first, &[Ok(true), Ok(true), Ok(true), Err(error)]);
    assert_eq!(
        asked,
        vec![Request::Unlock, Request::Release, Request::Close, Request::Remove]
    );
    assert_eq!(result, Some(Ok(true)));
    assert!(file.is_closed());
    assert!(!exclusive(3, false).is_temporary());
}

#[test]
fn refused_identity_ends_try_lock_without_the_system() {
    let mut file = exclusive(3, true);
    let first = file.try_lock_with_pid(5);
    let (asked, result) = script(&mut file, first, &[Ok(false)]);
    assert_eq!(asked, vec![Request::TryTake]);
    assert_eq!(result, Some(Ok(false)));
    assert!(file.is_idle());
}

#[test]
fn identity_follows_the_mode() {
    assert_eq!(
        FileId::get_id(Ok((1, 2)), Exclusivity::PerFileDesc),
        Ok(FileId::Exclusive((1, 2)))
    );
    assert_eq!(FileId::get_id(Ok((1, 2)), Exclusivity::OsDependent), Ok(FileId::NonExclusive));
    let error = Error::from_raw_os_error(9);
    assert_eq!(FileId::get_id(Err(error), Exclusivity::PerFileDesc), Err(error));
    assert_eq!(FileId::get_id(Err(error), Exclusivity::OsDependent), Ok(FileId::NonExclusive));
    assert!(Exclusivity::PerFileDesc.queries_file());
    assert!(!Exclusivity::OsDependent.queries_file());
}
