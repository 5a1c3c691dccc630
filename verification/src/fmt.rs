//! Text on its way into a lock file: the process id as decimal digits, and
//! the buffer that gathers text into pieces of at most [`BUF_SIZE`] bytes,
//! so that no byte costs a system call of its own.
//!
//! Nothing is written here. What comes out are the pieces, in the order in
//! which they are to reach the file.

use vstd::prelude::*;
use vstd::string::StringSliceAdditionalSpecFns;
use crate::lockfile::{FileDesc, Pid};

verus! {

/// I/O buffer size, chosen with the digits of a process id in mind.
pub const BUF_SIZE: usize = 16;

/// The decimal digits of `n` in ASCII, most significant first, without
/// leading zeros.
pub open spec fn digits(n: nat) -> Seq<u8>
    decreases n,
{
    if n < 10 {
        seq![(48 + n) as u8]
    } else {
        digits(n / 10).push((48 + n % 10) as u8)
    }
}

/// What a lock file holds while a process with id `pid` owns it: the
/// decimal digits of the id and a newline.
pub open spec fn stamp(pid: Pid) -> Seq<u8> {
    digits(pid as nat).push(10u8)
}

/// The pieces one after the other.
pub open spec fn joined(pieces: Seq<Seq<u8>>) -> Seq<u8>
    decreases pieces.len(),
{
    if pieces.len() == 0 {
        Seq::empty()
    } else {
        joined(pieces.drop_last()) + pieces.last()
    }
}

/// What each of `pieces` holds.
pub open spec fn contents(pieces: Seq<Vec<u8>>) -> Seq<Seq<u8>> {
    pieces.map_values(|piece: Vec<u8>| piece@)
}

/// Whether `pieces` are what a buffer of [`BUF_SIZE`] bytes lets through
/// and, at the end, gives up: no piece is empty, the last holds at most
/// [`BUF_SIZE`] bytes, and every other piece exactly as many.
pub open spec fn buffered(pieces: Seq<Seq<u8>>) -> bool {
    forall|i: int|
        0 <= i < pieces.len() ==> 0 < (#[trigger] pieces[i]).len() <= BUF_SIZE && (i + 1
            < pieces.len() ==> pieces[i].len() == BUF_SIZE)
}

/// Whether every one of `bytes` is zero.
pub open spec fn zeroed(bytes: Seq<u8>) -> bool {
    forall|i: int| 0 <= i < bytes.len() ==> bytes[i] == 0
}

proof fn lemma_joined_push(pieces: Seq<Seq<u8>>, piece: Seq<u8>)
    ensures
        joined(pieces.push(piece)) == joined(pieces) + piece,
{
    assert(pieces.push(piece).drop_last() =~= pieces);
}

/// Ten to the power `places`.
pub open spec fn ten_to(places: nat) -> nat
    decreases places,
{
    if places == 0 {
        1
    } else {
        10 * ten_to((places - 1) as nat)
    }
}

/// The digits of a number are ASCII digits, at least one and, of a number
/// below ten to the power `places`, at most `places`.
pub proof fn lemma_digits(n: nat, places: nat)
    requires
        places >= 1,
        n < ten_to(places),
    ensures
        1 <= digits(n).len() <= places,
        forall|i: int| 0 <= i < digits(n).len() ==> 48 <= #[trigger] digits(n)[i] <= 57,
    decreases n,
{
    if n >= 10 {
        assert(ten_to(1) == 10) by {
            reveal_with_fuel(ten_to, 2);
        }
        assert(n / 10 < ten_to((places - 1) as nat));
        lemma_digits(n / 10, (places - 1) as nat);
    }
}

/// A stamp is never empty: one to ten ASCII digits, then a newline, and
/// nothing else. It fits the buffer whole.
pub proof fn lemma_stamp(pid: Pid)
    ensures
        2 <= stamp(pid).len() <= 11,
        stamp(pid).len() <= BUF_SIZE,
        stamp(pid).last() == 10u8,
        forall|i: int| 0 <= i < stamp(pid).len() - 1 ==> 48 <= #[trigger] stamp(pid)[i] <= 57,
{
    assert(ten_to(10) == 10_000_000_000nat) by {
        reveal_with_fuel(ten_to, 11);
    }
    lemma_digits(pid as nat, 10);
    assert forall|i: int| 0 <= i < stamp(pid).len() - 1 implies 48 <= #[trigger] stamp(pid)[i]
        <= 57 by {
        assert(stamp(pid)[i] == digits(pid as nat)[i]);
    }
}

fn push_digits(n: u32, text: &mut Vec<u8>)
    ensures
        final(text)@ == old(text)@ + digits(n as nat),
    decreases n,
{
    if n < 10 {
        text.push(48u8 + n as u8);
        assert(text@ =~= old(text)@ + digits(n as nat));
    } else {
        push_digits(n / 10, text);
        text.push(48u8 + (n % 10) as u8);
        assert(text@ =~= old(text)@ + digits(n as nat));
    }
}

/// The stamp of the process `pid`.
pub fn pid_stamp(pid: Pid) -> (text: Vec<u8>)
    ensures
        text@ == stamp(pid),
{
    let mut text = Vec::new();
    push_digits(pid, &mut text);
    text.push(10u8);
    assert(text@ =~= stamp(pid));
    text
}

/// A writer of text into the given open file.
#[derive(Debug, Clone, Copy)]
pub struct Writer(
    /// The open file to which data will be written.
    pub FileDesc,
);

/// The buffer between text and file.
///
/// Text goes in with [`Adapter::write_str`]. A piece comes out each time the
/// buffer is full and more text follows, and a last one when the adapter is
/// finished.
#[derive(Debug)]
pub struct Adapter {
    /// File being written to.
    desc: FileDesc,
    /// Temporary buffer of bytes being written.
    buffer: [u8; BUF_SIZE],
    /// Cursor tracking where new bytes should be written at the buffer.
    cursor: usize,
    /// The pieces that have left the buffer, oldest first.
    flushed: Vec<Vec<u8>>,
}

fn piece_of(buffer: &[u8; BUF_SIZE], len: usize) -> (piece: Vec<u8>)
    requires
        len <= BUF_SIZE,
    ensures
        piece@ == buffer@.take(len as int),
{
    let mut piece = Vec::new();
    let mut i: usize = 0;
    while i < len
        invariant
            i <= len <= BUF_SIZE,
            piece@ == buffer@.take(i as int),
        decreases len - i,
    {
        piece.push(buffer[i]);
        i += 1;
        assert(piece@ =~= buffer@.take(i as int));
    }
    piece
}

impl Adapter {
    #[verifier::type_invariant]
    spec fn well_formed(&self) -> bool {
        &&& self.cursor <= BUF_SIZE
        &&& zeroed(self.buffer@.skip(self.cursor as int))
    }

    /// The file being written to.
    pub closed spec fn file(&self) -> FileDesc {
        self.desc
    }

    /// The bytes that wait in the buffer.
    pub closed spec fn pending(&self) -> Seq<u8> {
        self.buffer@.take(self.cursor as int)
    }

    /// The rest of the buffer, behind the bytes that wait. It is kept
    /// zeroed, so that nothing of an earlier piece stays in the buffer.
    pub closed spec fn spare(&self) -> Seq<u8> {
        self.buffer@.skip(self.cursor as int)
    }

    /// The pieces that have left the buffer, oldest first.
    pub closed spec fn flushed(&self) -> Seq<Seq<u8>> {
        contents(self.flushed@)
    }

    /// All the text that went in so far.
    pub open spec fn text(&self) -> Seq<u8> {
        joined(self.flushed()) + self.pending()
    }

    /// Creates a zeroed adapter from an open file.
    pub fn new(desc: FileDesc) -> (adapter: Self)
        ensures
            adapter.file() == desc,
            adapter.pending() == Seq::<u8>::empty(),
            adapter.spare().len() == BUF_SIZE,
            zeroed(adapter.spare()),
            adapter.flushed() == Seq::<Seq<u8>>::empty(),
    {
        let adapter = Self { desc, buffer: [0;BUF_SIZE], cursor: 0, flushed: Vec::new() };
        assert(adapter.pending() =~= Seq::<u8>::empty());
        assert(adapter.flushed() =~= Seq::<Seq<u8>>::empty());
        adapter
    }

    /// The file being written to.
    pub fn desc(&self) -> (desc: FileDesc)
        ensures
            desc == self.file(),
    {
        self.desc
    }

    /// Takes `data` in. Whenever the buffer is full and more of `data`
    /// follows, the full buffer leaves as one piece and the buffer is
    /// zeroed; what is left at the end stays in the buffer, so after any
    /// text at all the buffer is not empty.
    pub fn write_bytes(&mut self, data: &[u8])
        ensures
            final(self).file() == old(self).file(),
            final(self).text() == old(self).text() + data@,
            final(self).pending().len() + final(self).spare().len() == BUF_SIZE,
            zeroed(final(self).spare()),
            data@.len() > 0 ==> final(self).pending().len() > 0,
            data@.len() == 0 ==> final(self).pending() == old(self).pending(),
            old(self).flushed().len() <= final(self).flushed().len(),
            final(self).flushed().take(old(self).flushed().len() as int) == old(self).flushed(),
            forall|i: int|
                old(self).flushed().len() <= i < final(self).flushed().len() ==> (
                #[trigger] final(self).flushed()[i]).len() == BUF_SIZE,
            old(self).pending().len() + data@.len() <= BUF_SIZE ==> final(self).flushed()
                == old(self).flushed(),
    {
        proof {
            use_type_invariant(&*self);
        }
        let mut buffer = self.buffer;
        let mut cursor = self.cursor;
        let mut flushed = Vec::new();
        std::mem::swap(&mut flushed, &mut self.flushed);
        let ghost before = contents(flushed@);
        let ghost waiting = buffer@.take(cursor as int);
        assert(contents(flushed@).take(before.len() as int) =~= before);
        assert(data@.take(0) =~= Seq::<u8>::empty());
        assert(joined(before) + waiting + data@.take(0) =~= joined(before) + waiting);
        let mut at: usize = 0;
        while at < data.len()
            invariant
                at <= data.len(),
                cursor <= BUF_SIZE,
                zeroed(buffer@.skip(cursor as int)),
                joined(contents(flushed@)) + buffer@.take(cursor as int) == joined(before)
                    + waiting + data@.take(at as int),
                at > 0 && at == data.len() ==> cursor > 0,
                data.len() == 0 ==> buffer@.take(cursor as int) == waiting,
                before.len() <= flushed.len(),
                contents(flushed@).take(before.len() as int) == before,
                forall|i: int|
                    before.len() <= i < flushed.len() ==> (#[trigger] contents(flushed@)[i]).len()
                        == BUF_SIZE,
                waiting.len() + data.len() <= BUF_SIZE ==> contents(flushed@) == before && cursor
                    == waiting.len() + at,
            decreases data.len() - at, cursor,
        {
            let room = BUF_SIZE - cursor;
            let rest = data.len() - at;
            let size = if room < rest {
                room
            } else {
                rest
            };
            let ghost filled = buffer@.take(cursor as int);
            let ghost sofar = joined(contents(flushed@));
            assert(data@.subrange(at as int, at as int) =~= Seq::<u8>::empty());
            assert(filled + Seq::<u8>::empty() =~= filled);
            assert forall|i: int| cursor + size <= i < BUF_SIZE implies buffer@[i] == 0 by {
                assert(buffer@[i] == buffer@.skip(cursor as int)[i - cursor]);
            }
            let mut k: usize = 0;
            while k < size
                invariant
                    k <= size,
                    cursor + size <= BUF_SIZE,
                    at + size <= data.len(),
                    filled.len() == cursor,
                    buffer@.take(cursor + k) == filled + data@.subrange(at as int, at + k),
                    forall|i: int| cursor + size <= i < BUF_SIZE ==> buffer@[i] == 0,
                decreases size - k,
            {
                let ghost earlier = buffer@;
                buffer[cursor + k] = data[at + k];
                assert(buffer@.take(cursor + k + 1) =~= earlier.take(cursor + k).push(
                    data@[at + k],
                ));
                assert(data@.subrange(at as int, at + k + 1) =~= data@.subrange(
                    at as int,
                    at + k,
                ).push(data@[at + k]));
                k += 1;
                assert(buffer@.take(cursor + k) =~= filled + data@.subrange(at as int, at + k));
            }
            proof {
                let added = data@.subrange(at as int, at + size);
                assert(data@.take(at as int) + added =~= data@.take(at + size));
                assert(sofar + (filled + added) =~= (sofar + filled) + added);
                assert((joined(before) + waiting + data@.take(at as int)) + added =~= joined(
                    before,
                ) + waiting + data@.take(at + size));
            }
            cursor += size;
            at += size;
            assert(zeroed(buffer@.skip(cursor as int)));
            if at < data.len() {
                let piece = piece_of(&buffer, cursor);
                proof {
                    lemma_joined_push(contents(flushed@), piece@);
                    assert(contents(flushed@.push(piece)) =~= contents(flushed@).push(piece@));
                    assert(contents(flushed@.push(piece)).take(before.len() as int) =~= contents(
                        flushed@,
                    ).take(before.len() as int));
                }
                flushed.push(piece);
                buffer = [0;BUF_SIZE];
                cursor = 0;
                assert(joined(contents(flushed@)) + buffer@.take(0) =~= joined(
                    contents(flushed@),
                ));
            }
        }
        *self = Adapter { desc: self.desc, buffer, cursor, flushed };
    }

    /// Takes the bytes of `data` in, as [`Adapter::write_bytes`] does.
    pub fn write_str(&mut self, data: &str)
        ensures
            final(self).file() == old(self).file(),
            final(self).text() == old(self).text() + data.spec_bytes(),
            final(self).pending().len() + final(self).spare().len() == BUF_SIZE,
            zeroed(final(self).spare()),
            data.spec_bytes().len() > 0 ==> final(self).pending().len() > 0,
            data.spec_bytes().len() == 0 ==> final(self).pending() == old(self).pending(),
            old(self).flushed().len() <= final(self).flushed().len(),
            final(self).flushed().take(old(self).flushed().len() as int) == old(self).flushed(),
            forall|i: int|
                old(self).flushed().len() <= i < final(self).flushed().len() ==> (
                #[trigger] final(self).flushed()[i]).len() == BUF_SIZE,
            old(self).pending().len() + data.spec_bytes().len() <= BUF_SIZE ==> final(
                self
            ).flushed() == old(self).flushed(),
    {
        self.write_bytes(data.as_bytes());
    }

    /// Empties the buffer: what waits in it leaves as one piece, and the
    /// whole buffer is zeroed. An empty buffer gives no piece.
    pub fn flush(&mut self)
        ensures
            final(self).file() == old(self).file(),
            final(self).pending() == Seq::<u8>::empty(),
            final(self).spare().len() == BUF_SIZE,
            zeroed(final(self).spare()),
            final(self).flushed() == if old(self).pending().len() > 0 {
                old(self).flushed().push(old(self).pending())
            } else {
                old(self).flushed()
            },
            final(self).text() == old(self).text(),
    {
        proof {
            use_type_invariant(&*self);
        }
        if self.cursor > 0 {
            let piece = piece_of(&self.buffer, self.cursor);
            let mut flushed = Vec::new();
            std::mem::swap(&mut flushed, &mut self.flushed);
            proof {
                lemma_joined_push(contents(flushed@), piece@);
                assert(contents(flushed@.push(piece)) =~= contents(flushed@).push(piece@));
            }
            flushed.push(piece);
            self.flushed = flushed;
            self.buffer = [0;BUF_SIZE];
            self.cursor = 0;
        }
        assert(self.pending() =~= Seq::<u8>::empty());
        assert(self.text() =~= old(self).text());
    }

    /// Finishes the adapter: the buffer is emptied, and all the pieces come
    /// out, in the order in which they are to be written.
    pub fn finish(self) -> (pieces: Vec<Vec<u8>>)
        ensures
            contents(pieces@) == if self.pending().len() > 0 {
                self.flushed().push(self.pending())
            } else {
                self.flushed()
            },
            joined(contents(pieces@)) == self.text(),
    {
        let mut adapter = self;
        adapter.flush();
        assert(adapter.text() =~= joined(adapter.flushed()));
        adapter.flushed
    }
}

impl Writer {
    /// The pieces in which `text` is to reach the file, in order: every
    /// piece but the last fills the buffer, and together they are `text`.
    /// Empty text gives no piece. After the last piece the file is to be
    /// synchronised; a piece that cannot be written ends the writing.
    pub fn write_fmt(&self, text: &str) -> (pieces: Vec<Vec<u8>>)
        ensures
            joined(contents(pieces@)) == text.spec_bytes(),
            buffered(contents(pieces@)),
    {
        let mut adapter = Adapter::new(self.0);
        adapter.write_str(text);
        let ghost full = adapter.flushed();
        let ghost last = adapter.pending();
        let pieces = adapter.finish();
        proof {
            assert(joined(Seq::<Seq<u8>>::empty()) + Seq::<u8>::empty() + text.spec_bytes()
                =~= text.spec_bytes());
            assert forall|i: int| 0 <= i < contents(pieces@).len() implies 0 < (
            #[trigger] contents(pieces@)[i]).len() <= BUF_SIZE && (i + 1 < contents(pieces@).len()
                ==> contents(pieces@)[i].len() == BUF_SIZE) by {
                if i < full.len() {
                    assert(contents(pieces@)[i] == full[i]);
                }
            }
        }
        pieces
    }

    /// The pieces in which the stamp of the process `pid` is to reach the
    /// file: it is one piece, the whole stamp.
    pub fn write_pid(&self, pid: Pid) -> (pieces: Vec<Vec<u8>>)
        ensures
            contents(pieces@) == seq![stamp(pid)],
    {
        let text = pid_stamp(pid);
        let mut adapter = Adapter::new(self.0);
        proof {
            lemma_stamp(pid);
        }
        adapter.write_bytes(text.as_slice());
        let pieces = adapter.finish();
        proof {
            assert(Seq::<u8>::empty() + stamp(pid) =~= stamp(pid));
            assert(joined(Seq::<Seq<u8>>::empty()) + Seq::<u8>::empty() + stamp(pid) =~= stamp(
                pid,
            ));
            assert(contents(pieces@) =~= seq![stamp(pid)]);
        }
        pieces
    }
}

} // verus!
