//! The identity of an open file, and the table in which the handles of one
//! process claim identities.
//!
//! Some systems grant a file lock to the process, not to the handle: a second
//! handle of the same process gets the lock at once. The table closes that
//! gap. A handle claims its file's identity before it asks the system, and
//! no identity is claimed twice.

use std::collections::HashMap;
use vstd::prelude::*;
use crate::error::Error;

verus! {

/// What identifies a file on stable storage: its device and its inode.
pub type RawFileId = (u64, u64);

/// Whether the handles of one process exclude each other.
#[derive(Debug, Clone, Copy, PartialEq, Eq)]
pub enum Exclusivity {
    /// Each handle locks for itself, on every system.
    PerFileDesc,
    /// Whatever the operating system does.
    OsDependent,
}

/// The key under which a handle arbitrates with the other handles of its
/// process.
#[derive(Debug, Clone, Copy, PartialEq, Eq)]
pub enum FileId {
    /// The file's identity: handles with the same one exclude each other.
    Exclusive(RawFileId),
    /// No arbitration: the operating system alone decides.
    NonExclusive,
}

/// The identities that handles of this process hold, each with the notifier
/// on which those wait who want the same identity.
///
/// The table is meant to live behind one mutex for the whole process. None
/// of its operations blocks or fails, and each looks one key up in a hash
/// map.
pub struct HeldLocks<N> {
    entries: HashMap<u128, N>,
}

/// The number under which an identity stands in the table: the device in
/// the upper 64 bits, the inode in the lower.
pub open spec fn key_of(id: RawFileId) -> u128 {
    (id.0 * 0x1_0000_0000_0000_0000 + id.1) as u128
}

/// Two identities that stand under the same number are the same.
pub proof fn lemma_key_of(a: RawFileId, b: RawFileId)
    requires
        key_of(a) == key_of(b),
    ensures
        a == b,
{
    let width = 0x1_0000_0000_0000_0000int;
    assert(a.0 * width + a.1 == b.0 * width + b.1);
    assert(a.0 == b.0) by (nonlinear_arith)
        requires
            a.0 * width + a.1 == b.0 * width + b.1,
            0 <= a.1 < width,
            0 <= b.1 < width,
            width > 0,
    ;
}

fn key(id: RawFileId) -> (number: u128)
    ensures
        number == key_of(id),
{
    let upper: u128 = id.0 as u128;
    let lower: u128 = id.1 as u128;
    assert(upper * 0x1_0000_0000_0000_0000 + lower <= u128::MAX) by (nonlinear_arith)
        requires
            upper <= 0xFFFF_FFFF_FFFF_FFFF,
            lower <= 0xFFFF_FFFF_FFFF_FFFF,
    ;
    upper * 0x1_0000_0000_0000_0000 + lower
}

/// The table that a hash map over the numbers of identities stands for.
pub open spec fn listed<N>(entries: Map<u128, N>) -> Map<RawFileId, N> {
    Map::new(|id: RawFileId| entries.contains_key(key_of(id)), |id: RawFileId| entries[key_of(id)])
}

proof fn lemma_listed_insert<N>(entries: Map<u128, N>, id: RawFileId, notifier: N)
    ensures
        listed(entries.insert(key_of(id), notifier)) == listed(entries).insert(id, notifier),
{
    assert forall|other: RawFileId| other != id implies key_of(other) != key_of(id) by {
        if key_of(other) == key_of(id) {
            lemma_key_of(other, id);
        }
    }
    assert(listed(entries.insert(key_of(id), notifier)) =~= listed(entries).insert(id, notifier));
}

proof fn lemma_listed_remove<N>(entries: Map<u128, N>, id: RawFileId)
    ensures
        listed(entries.remove(key_of(id))) == listed(entries).remove(id),
{
    assert forall|other: RawFileId| other != id implies key_of(other) != key_of(id) by {
        if key_of(other) == key_of(id) {
            lemma_key_of(other, id);
        }
    }
    assert(listed(entries.remove(key_of(id))) =~= listed(entries).remove(id));
}

impl<N> View for HeldLocks<N> {
    type V = Map<RawFileId, N>;

    /// Which identity is held, and with which notifier.
    closed spec fn view(&self) -> Map<RawFileId, N> {
        listed(self.entries@)
    }
}

impl<N> HeldLocks<N> {
    /// A table in which nothing is held.
    pub fn new() -> (held: Self)
        ensures
            held@ == Map::<RawFileId, N>::empty(),
    {
        let held = HeldLocks { entries: HashMap::new() };
        assert(held@ =~= Map::<RawFileId, N>::empty());
        held
    }

    /// Whether some handle holds `id`.
    pub fn contains(&self, id: RawFileId) -> (held: bool)
        ensures
            held == self@.contains_key(id),
    {
        broadcast use vstd::std_specs::hash::group_hash_axioms;

        let number = key(id);
        self.entries.contains_key(&number)
    }

    /// The notifier of the handle that holds `id`: the one to wait on.
    pub fn holder(&self, id: RawFileId) -> (notifier: Option<&N>)
        ensures
            match notifier {
                Some(n) => self@.contains_key(id) && *n == self@[id],
                None => !self@.contains_key(id),
            },
    {
        broadcast use vstd::std_specs::hash::group_hash_axioms;

        let number = key(id);
        self.entries.get(&number)
    }

    /// Claims `id` if nobody holds it, in one step: the test and the entry
    /// are not separated. Says whether the claim was made. The table is left
    /// as it was when it was not.
    pub fn try_take(&mut self, id: RawFileId, notifier: N) -> (taken: bool)
        ensures
            taken == !old(self)@.contains_key(id),
            final(self)@ == if taken {
                old(self)@.insert(id, notifier)
            } else {
                old(self)@
            },
    {
        broadcast use vstd::std_specs::hash::group_hash_axioms;

        let number = key(id);
        if self.entries.contains_key(&number) {
            false
        } else {
            proof {
                lemma_listed_insert(self.entries@, id, notifier);
            }
            self.entries.insert(number, notifier);
            true
        }
    }

    /// Gives `id` up. Hands out the notifier it was held with, for the
    /// caller to wake one of those who wait; `None` where nobody held `id`.
    pub fn release(&mut self, id: RawFileId) -> (notifier: Option<N>)
        ensures
            final(self)@ == old(self)@.remove(id),
            notifier == if old(self)@.contains_key(id) {
                Some(old(self)@[id])
            } else {
                None
            },
    {
        broadcast use vstd::std_specs::hash::group_hash_axioms;

        let number = key(id);
        proof {
            lemma_listed_remove(self.entries@, id);
        }
        self.entries.remove(&number)
    }
}

impl Exclusivity {
    /// Whether this mode needs the file's identity, and so a metadata query
    /// on the open file.
    pub fn queries_file(&self) -> (needed: bool)
        ensures
            needed == (*self == Exclusivity::PerFileDesc),
    {
        match self {
            Exclusivity::PerFileDesc => true,
            Exclusivity::OsDependent => false,
        }
    }
}

impl FileId {
    /// Whether a handle with this identity may go on to the operating
    /// system: always without arbitration, else when nobody holds the
    /// identity.
    pub open spec fn is_free<N>(&self, held: Map<RawFileId, N>) -> bool {
        match *self {
            FileId::Exclusive(raw) => !held.contains_key(raw),
            FileId::NonExclusive => true,
        }
    }

    /// The table once this identity was claimed with `notifier`.
    pub open spec fn claimed<N>(&self, held: Map<RawFileId, N>, notifier: N) -> Map<RawFileId, N> {
        match *self {
            FileId::Exclusive(raw) => held.insert(raw, notifier),
            FileId::NonExclusive => held,
        }
    }

    /// The table once this identity was given up.
    pub open spec fn released<N>(&self, held: Map<RawFileId, N>) -> Map<RawFileId, N> {
        match *self {
            FileId::Exclusive(raw) => held.remove(raw),
            FileId::NonExclusive => held,
        }
    }

    /// The notifier that a release of this identity hands out.
    pub open spec fn notified<N>(&self, held: Map<RawFileId, N>) -> Option<N> {
        match *self {
            FileId::Exclusive(raw) if held.contains_key(raw) => Some(held[raw]),
            _ => None,
        }
    }

    /// The identity of an open file under mode `ex`. `stat` is what the
    /// metadata query on the open file gave, device and inode or the
    /// system's error; it is read in mode `PerFileDesc` only.
    pub fn get_id(stat: Result<RawFileId, Error>, ex: Exclusivity) -> (id: Result<Self, Error>)
        ensures
            id == match ex {
                Exclusivity::PerFileDesc => match stat {
                    Ok(raw) => Ok(FileId::Exclusive(raw)),
                    Err(error) => Err(error),
                },
                Exclusivity::OsDependent => Ok(FileId::NonExclusive),
            },
    {
        match ex {
            Exclusivity::PerFileDesc => match stat {
                Ok(raw) => Ok(FileId::Exclusive(raw)),
                Err(error) => Err(error),
            },
            Exclusivity::OsDependent => Ok(FileId::NonExclusive),
        }
    }

    /// One round of the blocking claim. Where the identity is free it is
    /// claimed with `notifier`, and `None` says that the round was the last.
    /// Where another handle holds it, the table stays as it was and the
    /// result is that handle's notifier: the caller waits on it, then tries
    /// again with that same notifier, so that those who still wait on it are
    /// woken by the next release.
    pub fn take_lock<'a, N>(&self, held: &'a mut HeldLocks<N>, notifier: N) -> (wait_on: Option<
        &'a N,
    >)
        ensures
            (wait_on is None) == self.is_free(old(held)@),
            final(held)@ == if wait_on is None {
                self.claimed(old(held)@, notifier)
            } else {
                old(held)@
            },
            wait_on matches Some(n) ==> Some(*n) == self.notified(old(held)@),
    {
        match self {
            FileId::NonExclusive => None,
            FileId::Exclusive(raw) => {
                if held.try_take(*raw, notifier) {
                    None
                } else {
                    held.holder(*raw)
                }
            },
        }
    }

    /// Claims the identity if it is free, and never waits. Says whether the
    /// caller may go on to the operating system.
    pub fn try_take_lock<N>(&self, held: &mut HeldLocks<N>, notifier: N) -> (taken: bool)
        ensures
            taken == self.is_free(old(held)@),
            final(held)@ == if taken {
                self.claimed(old(held)@, notifier)
            } else {
                old(held)@
            },
    {
        match self {
            FileId::NonExclusive => true,
            FileId::Exclusive(raw) => held.try_take(*raw, notifier),
        }
    }

    /// Gives the identity up. Hands out the notifier on which one waiter is
    /// to be woken, if the identity was held. Which waiter wakes is not
    /// decided here, and no order among them is kept.
    pub fn release_lock<N>(&self, held: &mut HeldLocks<N>) -> (notifier: Option<N>)
        ensures
            final(held)@ == self.released(old(held)@),
            notifier == self.notified(old(held)@),
    {
        match self {
            FileId::NonExclusive => None,
            FileId::Exclusive(raw) => held.release(*raw),
        }
    }
}

} // verus!
