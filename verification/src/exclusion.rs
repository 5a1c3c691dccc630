//! Why two handles of one process never own the lock on the same file at
//! once, where both were opened to exclude each other.
//!
//! A process is modelled as its table of held identities and its handles.
//! Each handle goes its way, one request at a time; the only thing asked of
//! the replies is that an identity is granted only while it is free.

use vstd::prelude::*;
use crate::error::Error;
use crate::fileid::{FileId, RawFileId};
use crate::lockfile::{LockState, Pid, Reply, Step};

verus! {

/// The handles of one process, and the identities that they hold.
pub struct Process<N> {
    /// The table of held identities.
    pub held: Map<RawFileId, N>,
    /// The handles that are open.
    pub handles: Seq<LockState>,
}

/// Whether `handle` holds the identity `raw`.
pub open spec fn claims(handle: LockState, raw: RawFileId) -> bool {
    handle.holds_identity() && handle.id == FileId::Exclusive(raw)
}

impl<N> Process<N> {
    /// Whether some handle holds the identity `raw`.
    pub open spec fn owned(self, raw: RawFileId) -> bool {
        exists|i: int| 0 <= i < self.handles.len() && claims(#[trigger] self.handles[i], raw)
    }

    /// What every step of every handle keeps: the handles are well formed,
    /// what a handle holds stands in the table, no two handles hold the same
    /// identity, and nothing stands in the table that no handle holds.
    pub open spec fn inv(self) -> bool {
        &&& forall|i: int| 0 <= i < self.handles.len() ==> (#[trigger] self.handles[i]).wf()
        &&& forall|i: int, raw: RawFileId|
            0 <= i < self.handles.len() && #[trigger] claims(self.handles[i], raw)
                ==> self.held.contains_key(raw)
        &&& forall|i: int, j: int, raw: RawFileId|
            0 <= i < self.handles.len() && 0 <= j < self.handles.len() && i != j
                && #[trigger] claims(self.handles[i], raw) ==> !#[trigger] claims(
                self.handles[j],
                raw,
            )
        &&& forall|raw: RawFileId| #[trigger] self.held.contains_key(raw) ==> self.owned(raw)
    }

    /// Whether `reply` can be the reply to what handle `i` waits for: an
    /// identity is granted only while nobody holds it. Of the operating
    /// system nothing is assumed.
    pub open spec fn faithful(self, i: int, reply: Reply) -> bool {
        (self.handles[i].phase is Taking && reply == Ok::<bool, Error>(true))
            ==> self.handles[i].id.is_free(self.held)
    }

    /// The process after handle `i` got `reply`. A granted identity stands
    /// in the table from then on, with `notifier`; one that was given up
    /// stands there no more.
    pub open spec fn deliver(self, i: int, reply: Reply, notifier: N) -> Process<N> {
        let handle = self.handles[i];
        Process {
            held: if handle.phase is Taking && reply == Ok::<bool, Error>(true) {
                handle.id.claimed(self.held, notifier)
            } else if handle.phase is Releasing {
                handle.id.released(self.held)
            } else {
                self.held
            },
            handles: self.handles.update(i, handle.next(reply).0),
        }
    }

    /// The process after handle `i` went over to `begun`.
    pub open spec fn with_handle(self, i: int, begun: LockState) -> Process<N> {
        Process { held: self.held, handles: self.handles.update(i, begun) }
    }
}

/// A process without handles and with an empty table is in order.
pub proof fn lemma_inv_initial<N>()
    ensures
        (Process::<N> { held: Map::empty(), handles: Seq::empty() }).inv(),
{
}

/// A newly opened handle leaves the process in order.
pub proof fn lemma_inv_open<N>(process: Process<N>, opened: LockState)
    requires
        process.inv(),
        opened.phase is Idle,
        !opened.locked,
    ensures
        (Process { held: process.held, handles: process.handles.push(opened) }).inv(),
{
    let after = Process { held: process.held, handles: process.handles.push(opened) };
    assert forall|i: int| 0 <= i < after.handles.len() implies (
    #[trigger] after.handles[i]).wf() by {
        if i < process.handles.len() {
            assert(after.handles[i] == process.handles[i]);
        }
    }
    assert forall|i: int, raw: RawFileId|
        0 <= i < after.handles.len() && #[trigger] claims(
            after.handles[i],
            raw,
        ) implies after.held.contains_key(raw) by {
        assert(after.handles[i] == process.handles[i]);
    }
    assert forall|i: int, j: int, raw: RawFileId|
        0 <= i < after.handles.len() && 0 <= j < after.handles.len() && i != j && #[trigger] claims(
            after.handles[i],
            raw,
        ) implies !#[trigger] claims(after.handles[j], raw) by {
        if j < process.handles.len() {
            assert(after.handles[i] == process.handles[i]);
            assert(after.handles[j] == process.handles[j]);
        }
    }
    assert forall|raw: RawFileId| #[trigger] after.held.contains_key(raw) implies after.owned(
        raw,
    ) by {
        assert(process.owned(raw));
        let k = choose|k: int| 0 <= k < process.handles.len() && claims(process.handles[k], raw);
        assert(after.handles[k] == process.handles[k]);
    }
}

/// The start of a lock operation leaves the process in order.
pub proof fn lemma_inv_begin_lock<N>(process: Process<N>, i: int, wait: bool, pid: Option<Pid>)
    requires
        process.inv(),
        0 <= i < process.handles.len(),
        process.handles[i].phase is Idle,
        !process.handles[i].locked,
    ensures
        process.with_handle(i, process.handles[i].begin_lock(wait, pid).0).inv(),
{
    lemma_inv_same_claims(process, i, process.handles[i].begin_lock(wait, pid).0);
}

/// The start of an unlock leaves the process in order.
pub proof fn lemma_inv_begin_unlock<N>(process: Process<N>, i: int)
    requires
        process.inv(),
        0 <= i < process.handles.len(),
        process.handles[i].phase is Idle,
        process.handles[i].locked,
    ensures
        process.with_handle(i, process.handles[i].begin_unlock(None, false).0).inv(),
{
    lemma_inv_same_claims(process, i, process.handles[i].begin_unlock(None, false).0);
}

/// The start of a close leaves the process in order.
pub proof fn lemma_inv_begin_close<N>(process: Process<N>, i: int)
    requires
        process.inv(),
        0 <= i < process.handles.len(),
        process.handles[i].phase is Idle,
    ensures
        process.with_handle(i, process.handles[i].begin_close().0).inv(),
{
    lemma_inv_same_claims(process, i, process.handles[i].begin_close().0);
}

proof fn lemma_inv_same_claims<N>(process: Process<N>, i: int, begun: LockState)
    requires
        process.inv(),
        0 <= i < process.handles.len(),
        begun.wf(),
        begun.id == process.handles[i].id,
        begun.holds_identity() == process.handles[i].holds_identity(),
    ensures
        process.with_handle(i, begun).inv(),
{
    let after = process.with_handle(i, begun);
    assert forall|k: int| 0 <= k < after.handles.len() implies (
    #[trigger] after.handles[k]).wf() by {
        if k != i {
            assert(after.handles[k] == process.handles[k]);
        }
    }
    assert forall|k: int, raw: RawFileId|
        0 <= k < after.handles.len() && #[trigger] claims(
            after.handles[k],
            raw,
        ) implies after.held.contains_key(raw) by {
        assert(claims(process.handles[k], raw));
    }
    assert forall|k: int, j: int, raw: RawFileId|
        0 <= k < after.handles.len() && 0 <= j < after.handles.len() && k != j && #[trigger] claims(
            after.handles[k],
            raw,
        ) implies !#[trigger] claims(after.handles[j], raw) by {
        assert(claims(process.handles[k], raw));
        if claims(after.handles[j], raw) {
            assert(claims(process.handles[j], raw));
        }
    }
    assert forall|raw: RawFileId| #[trigger] after.held.contains_key(raw) implies after.owned(
        raw,
    ) by {
        assert(process.owned(raw));
        let k = choose|k: int| 0 <= k < process.handles.len() && claims(process.handles[k], raw);
        assert(claims(after.handles[k], raw));
    }
}

/// Every reply leaves the process in order, as long as identities are
/// granted only while they are free.
pub proof fn lemma_inv_deliver<N>(process: Process<N>, i: int, reply: Reply, notifier: N)
    requires
        process.inv(),
        0 <= i < process.handles.len(),
        process.handles[i].awaiting(),
        process.faithful(i, reply),
    ensures
        process.deliver(i, reply, notifier).inv(),
{
    let handle = process.handles[i];
    let after = process.deliver(i, reply, notifier);
    let granted = handle.phase is Taking && reply == Ok::<bool, Error>(true);
    assert forall|k: int| 0 <= k < after.handles.len() implies (
    #[trigger] after.handles[k]).wf() by {
        if k != i {
            assert(after.handles[k] == process.handles[k]);
        }
    }
    assert forall|k: int, raw: RawFileId|
        0 <= k < after.handles.len() && #[trigger] claims(
            after.handles[k],
            raw,
        ) implies after.held.contains_key(raw) by {
        if k != i {
            assert(claims(process.handles[k], raw));
            if handle.phase is Releasing && handle.id == FileId::Exclusive(raw) {
                assert(claims(handle, raw));
            }
        } else if !granted {
            assert(claims(handle, raw));
        }
    }
    assert forall|k: int, j: int, raw: RawFileId|
        0 <= k < after.handles.len() && 0 <= j < after.handles.len() && k != j && #[trigger] claims(
            after.handles[k],
            raw,
        ) implies !#[trigger] claims(after.handles[j], raw) by {
        if claims(after.handles[j], raw) {
            if k != i && j != i {
                assert(claims(process.handles[k], raw));
                assert(claims(process.handles[j], raw));
            } else if k == i {
                assert(claims(process.handles[j], raw));
                if !granted {
                    assert(claims(handle, raw));
                }
            } else {
                assert(claims(process.handles[k], raw));
                if !granted {
                    assert(claims(handle, raw));
                }
            }
        }
    }
    assert forall|raw: RawFileId| #[trigger] after.held.contains_key(raw) implies after.owned(
        raw,
    ) by {
        if granted && handle.id == FileId::Exclusive(raw) {
            assert(claims(after.handles[i], raw));
        } else {
            assert(process.held.contains_key(raw));
            assert(process.owned(raw));
            let k = choose|k: int|
                0 <= k < process.handles.len() && claims(process.handles[k], raw);
            if k == i {
                assert(claims(handle, raw));
                assert(claims(after.handles[i], raw));
            } else {
                assert(after.handles[k] == process.handles[k]);
                assert(claims(after.handles[k], raw));
            }
        }
    }
}

/// In a process that is in order an identity stands in the table exactly
/// while some handle holds it: none is left behind, and none is held
/// without an entry.
pub proof fn lemma_table_is_exact<N>(process: Process<N>, raw: RawFileId)
    requires
        process.inv(),
    ensures
        process.held.contains_key(raw) <==> process.owned(raw),
{
    if process.owned(raw) {
        let k = choose|k: int| 0 <= k < process.handles.len() && claims(process.handles[k], raw);
        assert(claims(process.handles[k], raw));
    }
}

/// In a process that is in order no two handles own the lock on the same
/// file, if the file's identity is what they arbitrate by.
pub proof fn lemma_one_owner<N>(process: Process<N>, i: int, j: int)
    requires
        process.inv(),
        0 <= i < process.handles.len(),
        0 <= j < process.handles.len(),
        i != j,
        process.handles[i].id == process.handles[j].id,
        process.handles[i].id is Exclusive,
    ensures
        !(process.handles[i].holds_identity() && process.handles[j].holds_identity()),
        !(process.handles[i].locked && process.handles[j].locked),
{
    let raw = process.handles[i].id->Exclusive_0;
    if process.handles[i].holds_identity() && process.handles[j].holds_identity() {
        assert(claims(process.handles[i], raw));
        assert(claims(process.handles[j], raw));
    }
    assert(process.handles[i].wf());
    assert(process.handles[j].wf());
}

/// While one handle holds a file's identity, a second handle for the same
/// file is refused without waiting, and its `try_lock` ends with `Ok(false)`
/// before the system was asked. Once the first has given the identity up,
/// the second is granted it at once, and owns the lock as soon as the system
/// grants that too.
pub proof fn lemma_second_handle<N>(process: Process<N>, first: int, second: int)
    requires
        process.inv(),
        0 <= first < process.handles.len(),
        0 <= second < process.handles.len(),
        first != second,
        process.handles[first].id == process.handles[second].id,
        process.handles[first].id is Exclusive,
        process.handles[first].holds_identity(),
        process.handles[second].phase is Idle,
    ensures
        ({
            let a = process.handles[first];
            let b = process.handles[second];
            let refused: Reply = Ok(false);
            let granted: Reply = Ok(true);
            let later = a.id.released(process.held);
            &&& !b.locked
            &&& !b.id.is_free(process.held)
            &&& b.begin_lock(false, None).0.next(refused) == (b, Step::Done(refused))
            &&& b.id.is_free(later)
            &&& b.begin_lock(true, None).0.next(granted).0.next(granted) == (
                LockState { locked: true, ..b },
                Step::Done(granted),
            )
        }),
{
    let raw = process.handles[first].id->Exclusive_0;
    assert(claims(process.handles[first], raw));
    assert(process.handles[second].wf());
    if process.handles[second].locked {
        assert(claims(process.handles[second], raw));
    }
}

} // verus!
