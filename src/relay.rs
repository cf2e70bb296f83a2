//! One direction of the duplex relay as a state machine, and the pair of
//! directions that makes up a relay task.
//!
//! The caller performs each I/O step that the machine asks for and reports
//! how it completed; the machine decides what comes next. Ghost logs record
//! the bytes read from the source and the bytes written to the destination.
use vstd::prelude::*;

verus! {

/// Capacity of the buffer that each direction reads into.
pub const BUFFER_SIZE: usize = 4096;

/// Why a direction ended without failure.
#[derive(Clone, Copy, Debug, PartialEq, Eq, Structural)]
pub enum EndReason {
    /// The source returned a read of length zero.
    SourceClosed,
    /// The destination accepted no more bytes.
    WriteZero,
}

/// The I/O failures that end the whole process.
#[derive(Clone, Copy, Debug, PartialEq, Eq, Structural)]
pub enum Failure {
    Read,
    Write,
    Flush,
}

/// Where a direction stands: what it waits for next.
#[derive(Clone, Copy, Debug, PartialEq, Eq, Structural)]
pub enum Phase {
    Reading,
    Writing,
    Flushing,
    Ended(EndReason),
    Failed(Failure),
}

/// What the caller must do next for a direction.
#[derive(Clone, Copy, Debug, PartialEq, Eq, Structural)]
pub enum Action {
    /// Read up to `BUFFER_SIZE` bytes from the source.
    Read,
    /// Write the first `n` bytes of the buffer to the destination, all of them.
    WriteAll(usize),
    /// Flush the destination.
    Flush,
    /// The direction is over, cleanly.
    Stop,
    /// Abort the process.
    Abort(Failure),
}

/// How a write of the whole pending chunk completed.
#[derive(Clone, Copy, Debug, PartialEq, Eq, Structural)]
pub enum WriteOutcome {
    Written,
    /// The destination made no progress: it accepts no more bytes.
    WriteZero,
    Failed,
}

/// One copy loop from a source to a destination.
pub struct CopyLoop {
    pub phase: Phase,
    /// Length of the chunk being written, while `Writing`.
    pub pending: usize,
    /// Every byte read from the source, in order.
    pub received: Ghost<Seq<u8>>,
    /// Every byte the destination has taken, in order.
    pub delivered: Ghost<Seq<u8>>,
    /// The chunk being written, while `Writing`.
    pub chunk: Ghost<Seq<u8>>,
}

impl Failure {
    /// The diagnostic the process aborts with.
    pub fn message(&self) -> (r: &'static str)
        ensures
            *self == Failure::Read ==> r@ == "cannot read source"@,
            *self == Failure::Write ==> r@ == "cannot write target"@,
            *self == Failure::Flush ==> r@ == "cannot flush target"@,
    {
        match self {
            Failure::Read => "cannot read source",
            Failure::Write => "cannot write target",
            Failure::Flush => "cannot flush target",
        }
    }
}

impl CopyLoop {
    /// The invariant: the destination has taken a prefix of what was read,
    /// all of it except the chunk in flight, and all of it once the source
    /// has closed.
    pub open spec fn wf(&self) -> bool {
        &&& self.delivered@.len() <= self.received@.len()
        &&& self.delivered@ =~= self.received@.subrange(0, self.delivered@.len() as int)
        &&& match self.phase {
            Phase::Writing => {
                &&& 0 < self.pending <= BUFFER_SIZE
                &&& self.chunk@.len() == self.pending
                &&& self.received@ =~= self.delivered@ + self.chunk@
            },
            Phase::Reading | Phase::Flushing | Phase::Ended(EndReason::SourceClosed) => {
                self.delivered@ =~= self.received@
            },
            _ => true,
        }
    }

    /// The action that the current phase asks for.
    pub open spec fn next_action(&self) -> Action {
        match self.phase {
            Phase::Reading => Action::Read,
            Phase::Writing => Action::WriteAll(self.pending),
            Phase::Flushing => Action::Flush,
            Phase::Ended(_) => Action::Stop,
            Phase::Failed(f) => Action::Abort(f),
        }
    }

    /// Whether the direction is over without failure.
    pub open spec fn ended(&self) -> bool {
        self.phase matches Phase::Ended(_)
    }

    /// The state after a read that returned `data`.
    pub open spec fn after_read(self, data: Seq<u8>) -> CopyLoop {
        if data.len() == 0 {
            CopyLoop { phase: Phase::Ended(EndReason::SourceClosed), ..self }
        } else {
            CopyLoop {
                phase: Phase::Writing,
                pending: data.len() as usize,
                received: Ghost(self.received@ + data),
                chunk: Ghost(data),
                ..self
            }
        }
    }

    /// The state after the write of the pending chunk completed with `outcome`.
    pub open spec fn after_write(self, outcome: WriteOutcome) -> CopyLoop {
        match outcome {
            WriteOutcome::Written => CopyLoop {
                phase: Phase::Flushing,
                delivered: Ghost(self.delivered@ + self.chunk@),
                ..self
            },
            WriteOutcome::WriteZero => CopyLoop { phase: Phase::Ended(EndReason::WriteZero), ..self },
            WriteOutcome::Failed => CopyLoop { phase: Phase::Failed(Failure::Write), ..self },
        }
    }

    /// The state after a flush that succeeded (`ok`) or failed.
    pub open spec fn after_flush(self, ok: bool) -> CopyLoop {
        if ok {
            CopyLoop { phase: Phase::Reading, ..self }
        } else {
            CopyLoop { phase: Phase::Failed(Failure::Flush), ..self }
        }
    }

    /// A direction that has moved no byte yet and waits to read.
    pub fn new() -> (r: CopyLoop)
        ensures
            r.wf(),
            r.phase == Phase::Reading,
            r.received@ == Seq::<u8>::empty(),
            r.delivered@ == Seq::<u8>::empty(),
    {
        CopyLoop {
            phase: Phase::Reading,
            pending: 0,
            received: Ghost(Seq::empty()),
            delivered: Ghost(Seq::empty()),
            chunk: Ghost(Seq::empty()),
        }
    }

    /// A read completed with the bytes `data`. An empty read means that the
    /// source closed: the direction ends. Otherwise exactly those bytes are
    /// to be written.
    pub fn on_read(&mut self, data: &[u8]) -> (r: Action)
        requires
            old(self).wf(),
            old(self).phase == Phase::Reading,
            data@.len() <= BUFFER_SIZE,
        ensures
            final(self).wf(),
            *final(self) == old(self).after_read(data@),
            r == final(self).next_action(),
            final(self).delivered@ == old(self).delivered@,
            data@.len() == 0 ==> {
                &&& final(self).phase == Phase::Ended(EndReason::SourceClosed)
                &&& final(self).received@ == old(self).received@
                &&& r == Action::Stop
            },
            data@.len() > 0 ==> {
                &&& final(self).phase == Phase::Writing
                &&& final(self).received@ == old(self).received@ + data@
                &&& final(self).chunk@ == data@
                &&& r == Action::WriteAll(data.len())
            },
    {
        let n = data.len();
        if n == 0 {
            self.phase = Phase::Ended(EndReason::SourceClosed);
            Action::Stop
        } else {
            self.received = Ghost(self.received@ + data@);
            self.chunk = Ghost(data@);
            self.pending = n;
            self.phase = Phase::Writing;
            proof {
                assert(self.received@.subrange(0, self.delivered@.len() as int) =~= old(
                    self,
                ).received@.subrange(0, self.delivered@.len() as int));
            }
            Action::WriteAll(n)
        }
    }

    /// A read failed: the process aborts.
    pub fn on_read_failed(&mut self) -> (r: Action)
        requires
            old(self).wf(),
            old(self).phase == Phase::Reading,
        ensures
            final(self).wf(),
            r == final(self).next_action(),
            final(self).phase == Phase::Failed(Failure::Read),
            r == Action::Abort(Failure::Read),
            final(self).received@ == old(self).received@,
            final(self).delivered@ == old(self).delivered@,
    {
        self.phase = Phase::Failed(Failure::Read);
        Action::Abort(Failure::Read)
    }

    /// The write of the pending chunk completed. When all of it was taken,
    /// the destination is flushed next; a destination that takes nothing
    /// ends the direction cleanly; any other error aborts.
    pub fn on_write(&mut self, outcome: WriteOutcome) -> (r: Action)
        requires
            old(self).wf(),
            old(self).phase == Phase::Writing,
        ensures
            final(self).wf(),
            *final(self) == old(self).after_write(outcome),
            r == final(self).next_action(),
            final(self).received@ == old(self).received@,
            outcome == WriteOutcome::Written ==> {
                &&& final(self).phase == Phase::Flushing
                &&& final(self).delivered@ == old(self).delivered@ + old(self).chunk@
                &&& r == Action::Flush
            },
            outcome == WriteOutcome::WriteZero ==> {
                &&& final(self).phase == Phase::Ended(EndReason::WriteZero)
                &&& final(self).delivered@ == old(self).delivered@
                &&& r == Action::Stop
            },
            outcome == WriteOutcome::Failed ==> {
                &&& final(self).phase == Phase::Failed(Failure::Write)
                &&& final(self).delivered@ == old(self).delivered@
                &&& r == Action::Abort(Failure::Write)
            },
    {
        match outcome {
            WriteOutcome::Written => {
                self.delivered = Ghost(self.delivered@ + self.chunk@);
                self.phase = Phase::Flushing;
                Action::Flush
            },
            WriteOutcome::WriteZero => {
                self.phase = Phase::Ended(EndReason::WriteZero);
                Action::Stop
            },
            WriteOutcome::Failed => {
                self.phase = Phase::Failed(Failure::Write);
                Action::Abort(Failure::Write)
            },
        }
    }

    /// The flush completed (`ok`) or failed. After a flush the next read
    /// follows; a failed flush aborts.
    pub fn on_flush(&mut self, ok: bool) -> (r: Action)
        requires
            old(self).wf(),
            old(self).phase == Phase::Flushing,
        ensures
            final(self).wf(),
            *final(self) == old(self).after_flush(ok),
            r == final(self).next_action(),
            final(self).received@ == old(self).received@,
            final(self).delivered@ == old(self).delivered@,
            ok ==> final(self).phase == Phase::Reading && r == Action::Read,
            !ok ==> final(self).phase == Phase::Failed(Failure::Flush) && r == Action::Abort(
                Failure::Flush,
            ),
    {
        if ok {
            self.phase = Phase::Reading;
            Action::Read
        } else {
            self.phase = Phase::Failed(Failure::Flush);
            Action::Abort(Failure::Flush)
        }
    }

    /// Whether the direction is over without failure.
    pub fn is_ended(&self) -> (r: bool)
        ensures
            r == self.ended(),
    {
        match self.phase {
            Phase::Ended(_) => true,
            _ => false,
        }
    }
}

/// A relay task: the direction from the TCP connection to the IPC channel
/// and the direction back. The two share nothing.
pub struct Relay {
    pub to_channel: CopyLoop,
    pub to_client: CopyLoop,
}

impl Relay {
    pub open spec fn wf(&self) -> bool {
        self.to_channel.wf() && self.to_client.wf()
    }

    /// The connection is to be closed: both directions ended cleanly.
    pub open spec fn closes(&self) -> bool {
        self.to_channel.ended() && self.to_client.ended()
    }

    /// Both directions start out reading, with nothing moved.
    pub fn new() -> (r: Relay)
        ensures
            r.wf(),
            r.to_channel.phase == Phase::Reading,
            r.to_client.phase == Phase::Reading,
            r.to_channel.received@.len() == 0,
            r.to_client.received@.len() == 0,
    {
        Relay { to_channel: CopyLoop::new(), to_client: CopyLoop::new() }
    }

    /// The TCP connection is closed once both directions have ended.
    pub fn should_close(&self) -> (r: bool)
        ensures
            r == self.closes(),
    {
        self.to_channel.is_ended() && self.to_client.is_ended()
    }
}

/// The bytes of a sequence of chunks, in order.
pub open spec fn concat(chunks: Seq<Seq<u8>>) -> Seq<u8>
    decreases chunks.len(),
{
    if chunks.len() == 0 {
        Seq::empty()
    } else {
        concat(chunks.drop_last()) + chunks.last()
    }
}

/// The state after each chunk in turn was read, written in full and flushed.
pub open spec fn pump(d: CopyLoop, chunks: Seq<Seq<u8>>) -> CopyLoop
    decreases chunks.len(),
{
    if chunks.len() == 0 {
        d
    } else {
        pump(d, chunks.drop_last()).after_read(chunks.last()).after_write(
            WriteOutcome::Written,
        ).after_flush(true)
    }
}

proof fn lemma_pump(d: CopyLoop, chunks: Seq<Seq<u8>>)
    requires
        d.wf(),
        d.phase == Phase::Reading,
        forall|i: int| 0 <= i < chunks.len() ==> 0 < #[trigger] chunks[i].len() <= BUFFER_SIZE,
    ensures
        pump(d, chunks).wf(),
        pump(d, chunks).phase == Phase::Reading,
        pump(d, chunks).received@ == d.received@ + concat(chunks),
        pump(d, chunks).delivered@ == d.delivered@ + concat(chunks),
    decreases chunks.len(),
{
    if chunks.len() > 0 {
        let init = chunks.drop_last();
        assert forall|i: int| 0 <= i < init.len() implies 0 < #[trigger] init[i].len()
            <= BUFFER_SIZE by {
            assert(init[i] == chunks[i]);
        }
        lemma_pump(d, init);
        let p = pump(d, init);
        let c = chunks.last();
        assert(0 < chunks[chunks.len() - 1].len() <= BUFFER_SIZE);
        let e = p.after_read(c).after_write(WriteOutcome::Written).after_flush(true);
        assert(e.received@ =~= d.received@ + concat(chunks));
        assert(e.delivered@ =~= d.delivered@ + concat(chunks));
        assert(e.delivered@ =~= e.received@.subrange(0, e.delivered@.len() as int));
    }
}

/// Byte fidelity: when a direction has read `chunks` one after another, the
/// destination took each of them in full, and the source then closed, the
/// direction ends cleanly and the destination has taken exactly the bytes
/// that the source gave, in the same order.
pub proof fn lemma_byte_fidelity(d: CopyLoop, chunks: Seq<Seq<u8>>)
    requires
        d.wf(),
        d.phase == Phase::Reading,
        forall|i: int| 0 <= i < chunks.len() ==> 0 < #[trigger] chunks[i].len() <= BUFFER_SIZE,
    ensures
        ({
            let e = pump(d, chunks).after_read(Seq::empty());
            &&& e.wf()
            &&& e.phase == Phase::Ended(EndReason::SourceClosed)
            &&& e.received@ == d.received@ + concat(chunks)
            &&& e.delivered@ == d.delivered@ + concat(chunks)
            &&& e.delivered@ == e.received@
        }),
{
    lemma_pump(d, chunks);
}

/// Every state of a direction: the destination has taken a prefix of the
/// bytes read from the source, in order, never a byte more or out of place.
pub proof fn lemma_delivered_prefix(d: CopyLoop)
    requires
        d.wf(),
    ensures
        d.delivered@.len() <= d.received@.len(),
        forall|i: int| 0 <= i < d.delivered@.len() ==> d.delivered@[i] == d.received@[i],
{
    assert forall|i: int| 0 <= i < d.delivered@.len() implies d.delivered@[i] == d.received@[i] by {
        assert(d.delivered@[i] == d.received@.subrange(0, d.delivered@.len() as int)[i]);
    }
}

/// Isolation: two directions, each fed its own stream, each deliver exactly
/// their own bytes; nothing of one stream reaches the other destination.
pub proof fn lemma_isolation(a: CopyLoop, b: CopyLoop, xs: Seq<Seq<u8>>, ys: Seq<Seq<u8>>)
    requires
        a.wf(),
        b.wf(),
        a.phase == Phase::Reading,
        b.phase == Phase::Reading,
        a.received@.len() == 0,
        b.received@.len() == 0,
        forall|i: int| 0 <= i < xs.len() ==> 0 < #[trigger] xs[i].len() <= BUFFER_SIZE,
        forall|i: int| 0 <= i < ys.len() ==> 0 < #[trigger] ys[i].len() <= BUFFER_SIZE,
    ensures
        pump(a, xs).delivered@ == concat(xs),
        pump(b, ys).delivered@ == concat(ys),
{
    lemma_pump(a, xs);
    lemma_pump(b, ys);
    assert(a.delivered@ =~= Seq::<u8>::empty());
    assert(b.delivered@ =~= Seq::<u8>::empty());
    assert(a.delivered@ + concat(xs) =~= concat(xs));
    assert(b.delivered@ + concat(ys) =~= concat(ys));
}

/// Clean termination: a source that closes, or a destination that takes no
/// more bytes, ends the direction without failure; a relay whose two
/// directions both ended closes the connection.
pub proof fn lemma_clean_termination(r: Relay)
    requires
        r.wf(),
    ensures
        r.to_channel.phase == Phase::Reading ==> r.to_channel.after_read(Seq::empty()).ended()
            && r.to_channel.after_read(Seq::empty()).next_action() == Action::Stop,
        r.to_channel.phase == Phase::Writing ==> r.to_channel.after_write(
            WriteOutcome::WriteZero,
        ).ended() && r.to_channel.after_write(WriteOutcome::WriteZero).next_action()
            == Action::Stop,
        r.to_client.phase == Phase::Reading ==> r.to_client.after_read(Seq::empty()).ended()
            && r.to_client.after_read(Seq::empty()).next_action() == Action::Stop,
        r.to_client.phase == Phase::Writing ==> r.to_client.after_write(
            WriteOutcome::WriteZero,
        ).ended() && r.to_client.after_write(WriteOutcome::WriteZero).next_action()
            == Action::Stop,
        r.to_channel.ended() && r.to_client.ended() ==> r.closes(),
{
}

} // verus!
