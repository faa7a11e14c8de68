//! Accounting for a raw payload that follows a handshake on a stream: a
//! declared byte count, moved in bounded chunks until the count is reached or
//! the sending side closes.
//!
//! The same bookkeeping serves the server receiving a Put body, the server
//! sending a Get body and the client receiving one. What is counted as
//! moved is what actually arrived, never the declared size.

use vstd::prelude::*;

verus! {

/// Largest chunk asked for in one read.
pub const CHUNK_SIZE: usize = 65536;

/// Why a chunk was refused.
#[derive(Debug, Clone, Copy, PartialEq, Eq, Structural)]
pub enum TransferError {
    /// The chunk holds more than the declared size leaves room for.
    Overrun,
    /// Data arrived after the sending side had closed.
    Closed,
}

/// The state of a transfer as a mathematical value.
pub ghost struct TransferView {
    pub expected: nat,
    pub moved: nat,
    pub closed: bool,
    pub data: Seq<u8>,
}

/// The state before any byte has moved.
pub open spec fn start(expected: nat) -> TransferView {
    TransferView { expected, moved: 0, closed: false, data: Seq::empty() }
}

/// A transfer is over once the declared count is reached or the peer closed.
pub open spec fn finished(t: TransferView) -> bool {
    t.closed || t.moved >= t.expected
}

/// How many bytes the next read asks for.
pub open spec fn wanted(t: TransferView) -> nat {
    if finished(t) {
        0
    } else if t.expected - t.moved < CHUNK_SIZE {
        (t.expected - t.moved) as nat
    } else {
        CHUNK_SIZE as nat
    }
}

/// The effect of one read: an empty chunk means the peer closed.
pub open spec fn step(t: TransferView, chunk: Seq<u8>) -> Result<TransferView, TransferError> {
    if chunk.len() == 0 {
        Ok(TransferView { closed: true, ..t })
    } else if t.closed {
        Err(TransferError::Closed)
    } else if t.moved + chunk.len() > t.expected {
        Err(TransferError::Overrun)
    } else {
        Ok(TransferView { moved: t.moved + chunk.len(), data: t.data + chunk, ..t })
    }
}

/// The effect of a sequence of reads, stopping at the first refusal.
pub open spec fn run(t: TransferView, chunks: Seq<Seq<u8>>) -> Result<TransferView, TransferError>
    decreases chunks.len(),
{
    if chunks.len() == 0 {
        Ok(t)
    } else {
        match step(t, chunks[0]) {
            Ok(next) => run(next, chunks.drop_first()),
            Err(e) => Err(e),
        }
    }
}

/// All chunks laid end to end.
pub open spec fn flatten(chunks: Seq<Seq<u8>>) -> Seq<u8>
    decreases chunks.len(),
{
    if chunks.len() == 0 {
        Seq::empty()
    } else {
        chunks[0] + flatten(chunks.drop_first())
    }
}

/// Progress of one payload transfer.
pub struct Transfer {
    expected: u64,
    moved: u64,
    closed: bool,
    data: Ghost<Seq<u8>>,
}

impl View for Transfer {
    type V = TransferView;

    closed spec fn view(&self) -> TransferView {
        TransferView {
            expected: self.expected as nat,
            moved: self.moved as nat,
            closed: self.closed,
            data: self.data@,
        }
    }
}

impl Transfer {
    /// The moved count stays within the declared size and matches the bytes
    /// seen.
    pub closed spec fn wf(&self) -> bool {
        self.moved <= self.expected && self.data@.len() == self.moved
    }

    /// A transfer of `expected` bytes, none moved yet.
    pub fn new(expected: u64) -> (r: Transfer)
        ensures
            r@ == start(expected as nat),
            r.wf(),
    {
        Transfer { expected, moved: 0, closed: false, data: Ghost(Seq::empty()) }
    }

    /// The declared size.
    pub fn expected(&self) -> (r: u64)
        ensures
            r as nat == self@.expected,
    {
        self.expected
    }

    /// The bytes moved so far.
    pub fn moved(&self) -> (r: u64)
        ensures
            r as nat == self@.moved,
    {
        self.moved
    }

    /// Whether the transfer is over.
    pub fn is_finished(&self) -> (r: bool)
        ensures
            r == finished(self@),
    {
        self.closed || self.moved >= self.expected
    }

    /// How many bytes to ask for next: zero once the transfer is over, else
    /// what is left, capped at one chunk.
    pub fn next_request(&self) -> (r: usize)
        requires
            self.wf(),
        ensures
            r as nat == wanted(self@),
            r <= CHUNK_SIZE,
    {
        if self.closed || self.moved >= self.expected {
            0
        } else if self.expected - self.moved < CHUNK_SIZE as u64 {
            (self.expected - self.moved) as usize
        } else {
            CHUNK_SIZE
        }
    }

    /// Records one read. An empty chunk means the sending side closed.
    pub fn record(&mut self, chunk: &[u8]) -> (r: Result<(), TransferError>)
        requires
            old(self).wf(),
        ensures
            final(self).wf(),
            match step(old(self)@, chunk@) {
                Ok(v) => r is Ok && final(self)@ == v,
                Err(e) => r == Err::<(), TransferError>(e) && final(self)@ == old(self)@,
            },
    {
        let n = chunk.len();
        if n == 0 {
            self.closed = true;
            return Ok(());
        }
        if self.closed {
            return Err(TransferError::Closed);
        }
        if n as u64 > self.expected - self.moved {
            return Err(TransferError::Overrun);
        }
        self.moved = self.moved + n as u64;
        self.data = Ghost(self.data@ + chunk@);
        Ok(())
    }
}

/// A stream yields nothing more once it has closed: no chunk with data comes
/// after an empty one.
pub open spec fn nothing_after_close(chunks: Seq<Seq<u8>>) -> bool {
    forall|i: int, j: int|
        #![trigger chunks[i], chunks[j]]
        0 <= i < j < chunks.len() && chunks[i].len() == 0 ==> chunks[j].len() == 0
}

/// Some read came back empty: the sending side closed.
pub open spec fn has_close(chunks: Seq<Seq<u8>>) -> bool {
    exists|i: int| 0 <= i < chunks.len() && (#[trigger] chunks[i]).len() == 0
}

proof fn lemma_run_counts(t: TransferView, chunks: Seq<Seq<u8>>)
    requires
        t.moved + flatten(chunks).len() <= t.expected,
        nothing_after_close(chunks),
        t.closed ==> forall|i: int| 0 <= i < chunks.len() ==> (#[trigger] chunks[i]).len() == 0,
    ensures
        run(t, chunks) == Ok::<TransferView, TransferError>(
            TransferView {
                moved: t.moved + flatten(chunks).len(),
                data: t.data + flatten(chunks),
                closed: t.closed || has_close(chunks),
                expected: t.expected,
            },
        ),
    decreases chunks.len(),
{
    if chunks.len() == 0 {
        assert(t.data + flatten(chunks) == t.data);
        assert(!has_close(chunks));
    } else {
        let rest = chunks.drop_first();
        assert(flatten(chunks) == chunks[0] + flatten(rest));
        assert forall|i: int, j: int|
            #![trigger rest[i], rest[j]]
            0 <= i < j < rest.len() && rest[i].len() == 0 implies rest[j].len() == 0 by {
            assert(rest[i] == chunks[i + 1] && rest[j] == chunks[j + 1]);
        }
        let next = if chunks[0].len() == 0 {
            TransferView { closed: true, ..t }
        } else {
            TransferView { moved: t.moved + chunks[0].len(), data: t.data + chunks[0], ..t }
        };
        if chunks[0].len() == 0 {
            assert forall|j: int| 0 <= j < rest.len() implies (#[trigger] rest[j]).len() == 0 by {
                assert(rest[j] == chunks[j + 1]);
                assert(chunks[0].len() == 0 ==> chunks[j + 1].len() == 0);
            }
            assert(has_close(chunks));
        } else {
            assert(!t.closed);
            if has_close(rest) {
                let k = choose|k: int| 0 <= k < rest.len() && (#[trigger] rest[k]).len() == 0;
                assert(chunks[k + 1] == rest[k]);
            }
            if has_close(chunks) {
                let k = choose|k: int| 0 <= k < chunks.len() && (#[trigger] chunks[k]).len() == 0;
                assert(k > 0);
                assert(rest[k - 1] == chunks[k]);
            }
        }
        assert(step(t, chunks[0]) == Ok::<TransferView, TransferError>(next));
        lemma_run_counts(next, rest);
        assert(next.data + flatten(rest) == t.data + flatten(chunks));
    }
}

/// Whatever the reads deliver, as long as the sender sends no more than it
/// declared and nothing after closing: once it closes, the moved count is
/// the bytes that actually arrived, not the declared size, and the data is
/// exactly those bytes.
pub proof fn lemma_moved_is_received(expected: nat, chunks: Seq<Seq<u8>>)
    requires
        flatten(chunks).len() <= expected,
        nothing_after_close(chunks),
    ensures
        run(start(expected), chunks.push(Seq::empty())) matches Ok(t) && finished(t)
            && t.moved == flatten(chunks).len() && t.data == flatten(chunks),
{
    lemma_run_counts(start(expected), chunks);
    lemma_run_append(start(expected), chunks, Seq::empty());
    assert(Seq::<u8>::empty() + flatten(chunks) == flatten(chunks));
}

proof fn lemma_run_append(t: TransferView, chunks: Seq<Seq<u8>>, last: Seq<u8>)
    ensures
        run(t, chunks.push(last)) == match run(t, chunks) {
            Ok(u) => step(u, last),
            Err(e) => Err(e),
        },
    decreases chunks.len(),
{
    if chunks.len() == 0 {
        let one = chunks.push(last);
        assert(one.drop_first() == Seq::<Seq<u8>>::empty());
        assert(one[0] == last);
        if let Ok(next) = step(t, last) {
            assert(run(next, one.drop_first()) == Ok::<TransferView, TransferError>(next));
        }
    } else {
        assert(chunks.push(last).drop_first() == chunks.drop_first().push(last));
        assert(chunks.push(last)[0] == chunks[0]);
        if let Ok(next) = step(t, chunks[0]) {
            lemma_run_append(next, chunks.drop_first(), last);
        }
    }
}

/// A payload that is sent in full and received in full arrives unchanged:
/// whatever chunks it was cut into on either side, empty reads included,
/// both transfers end with the whole count moved and the same bytes seen.
pub proof fn lemma_round_trip(content: Seq<u8>, sent: Seq<Seq<u8>>, received: Seq<Seq<u8>>)
    requires
        flatten(sent) == content,
        flatten(received) == content,
        nothing_after_close(sent),
        nothing_after_close(received),
    ensures
        run(start(content.len()), sent) matches Ok(s) && finished(s) && s.moved == content.len()
            && s.data == content,
        run(start(content.len()), received) matches Ok(g) && finished(g) && g.moved
            == content.len() && g.data == content,
{
    lemma_run_counts(start(content.len()), sent);
    lemma_run_counts(start(content.len()), received);
    assert(Seq::<u8>::empty() + content == content);
}

} // verus!
