use crate::fault::{peer_gone, IoErrorKind};
use vstd::prelude::*;

verus! {

/// Which way a pump copies bytes.
#[derive(Clone, Copy, Debug, PartialEq, Eq, Structural)]
pub enum Direction {
    /// From the inbound (client) connection to the outbound (target) one.
    Forward,
    /// From the outbound (target) connection to the inbound (client) one.
    Backward,
}

/// The operation that failed when a pump ended abnormally.
#[derive(Clone, Copy, Debug, PartialEq, Eq, Structural)]
pub enum Operation {
    Read,
    Write,
}

/// How a pump ended.
#[derive(Clone, Copy, Debug, PartialEq, Eq, Structural)]
pub enum PumpOutcome {
    /// The source reached end-of-stream.
    NormalClose,
    /// The destination peer was gone when a chunk was written to it.
    PeerClosed,
    /// Any other I/O failure.
    Failed(Operation, IoErrorKind),
}

/// Where a pump stands.
#[derive(Clone, Copy, Debug, PartialEq, Eq, Structural)]
pub enum Phase {
    /// Waiting for the next chunk from the source.
    Reading,
    /// Waiting for the last chunk read to be written and flushed.
    Writing,
    /// Ended; terminal.
    Done(PumpOutcome),
}

/// What the caller is to do next for a pump.
#[derive(Debug)]
pub enum Action {
    /// Read the next chunk from the source.
    Read,
    /// Write this chunk fully to the destination and flush it.
    Write(Vec<u8>),
    /// Shut down the write half of the destination and stop this pump.
    Close(PumpOutcome),
}

/// A result the caller hands back to a pump, as the proofs see it.
pub enum Event {
    /// What a read returned: a chunk (empty at end-of-stream) or a failure.
    Read(Result<Seq<u8>, IoErrorKind>),
    /// What a write and flush of the pending chunk returned.
    Wrote(Result<(), IoErrorKind>),
}

/// The abstract state of a pump.
pub struct PumpView {
    pub direction: Direction,
    pub phase: Phase,
    /// Every chunk read from the source, in order.
    pub received: Seq<Seq<u8>>,
    /// Every chunk written and flushed to the destination, in order.
    pub delivered: Seq<Seq<u8>>,
}

impl PumpOutcome {
    pub open spec fn failure(self) -> bool {
        self is Failed
    }

    /// Whether this ending is a genuine I/O failure, to be reported as an
    /// error; end-of-stream and a closed peer are the normal ways to end.
    pub fn is_failure(&self) -> (r: bool)
        ensures
            r == self.failure(),
    {
        match self {
            PumpOutcome::Failed(_, _) => true,
            _ => false,
        }
    }
}

/// The outcome of a write that failed with kind `k`.
pub open spec fn write_outcome(k: IoErrorKind) -> PumpOutcome {
    if peer_gone(k) {
        PumpOutcome::PeerClosed
    } else {
        PumpOutcome::Failed(Operation::Write, k)
    }
}

/// All bytes of a sequence of chunks, in order.
pub open spec fn flatten(chunks: Seq<Seq<u8>>) -> Seq<u8>
    decreases chunks.len(),
{
    if chunks.len() == 0 {
        Seq::empty()
    } else {
        flatten(chunks.drop_last()) + chunks.last()
    }
}

impl PumpView {
    /// A pump that has not read anything yet.
    pub open spec fn initial(direction: Direction) -> PumpView {
        PumpView { direction, phase: Phase::Reading, received: seq![], delivered: seq![] }
    }

    /// Every chunk read is non-empty, and every chunk but the last one read
    /// has been delivered, in order; the last one too unless it is pending
    /// or could not be written.
    pub open spec fn wf(self) -> bool {
        &&& forall|i: int| 0 <= i < self.received.len() ==> #[trigger] self.received[i].len() > 0
        &&& match self.phase {
            Phase::Writing | Phase::Done(PumpOutcome::PeerClosed) | Phase::Done(
                PumpOutcome::Failed(Operation::Write, _),
            ) => self.received.len() > 0 && self.delivered == self.received.drop_last(),
            _ => self.delivered == self.received,
        }
    }

    /// The state after one event. An event out of turn leaves it unchanged.
    pub open spec fn step(self, e: Event) -> PumpView {
        match (self.phase, e) {
            (Phase::Reading, Event::Read(Ok(chunk))) => if chunk.len() == 0 {
                PumpView { phase: Phase::Done(PumpOutcome::NormalClose), ..self }
            } else {
                PumpView { phase: Phase::Writing, received: self.received.push(chunk), ..self }
            },
            (Phase::Reading, Event::Read(Err(k))) => PumpView {
                phase: Phase::Done(PumpOutcome::Failed(Operation::Read, k)),
                ..self
            },
            (Phase::Writing, Event::Wrote(Ok(()))) => PumpView {
                phase: Phase::Reading,
                delivered: self.received,
                ..self
            },
            (Phase::Writing, Event::Wrote(Err(k))) => PumpView {
                phase: Phase::Done(write_outcome(k)),
                ..self
            },
            _ => self,
        }
    }

    /// The state after a sequence of events.
    pub open spec fn run(self, es: Seq<Event>) -> PumpView
        decreases es.len(),
    {
        if es.len() == 0 {
            self
        } else {
            self.step(es[0]).run(es.drop_first())
        }
    }
}

/// One direction of a relayed connection: a state machine that the caller
/// drives by performing each action it returns and handing back the result.
pub struct Pump {
    direction: Direction,
    phase: Phase,
    received: Ghost<Seq<Seq<u8>>>,
    delivered: Ghost<Seq<Seq<u8>>>,
}

impl View for Pump {
    type V = PumpView;

    closed spec fn view(&self) -> PumpView {
        PumpView {
            direction: self.direction,
            phase: self.phase,
            received: self.received@,
            delivered: self.delivered@,
        }
    }
}

impl Pump {
    /// A pump that starts by reading from its source.
    pub fn new(direction: Direction) -> (r: Pump)
        ensures
            r@ == PumpView::initial(direction),
            r@.wf(),
    {
        Pump { direction, phase: Phase::Reading, received: Ghost(Seq::empty()), delivered: Ghost(Seq::empty()) }
    }

    pub fn direction(&self) -> (r: Direction)
        ensures
            r == self@.direction,
    {
        self.direction
    }

    pub fn phase(&self) -> (r: Phase)
        ensures
            r == self@.phase,
    {
        self.phase
    }

    /// Takes what a read of the source returned. An empty chunk is
    /// end-of-stream and ends the pump normally; a non-empty one is handed out
    /// to be written; a failure ends the pump as failed.
    pub fn on_read(&mut self, r: Result<Vec<u8>, IoErrorKind>) -> (a: Action)
        requires
            old(self)@.wf(),
            old(self)@.phase == Phase::Reading,
        ensures
            final(self)@ == old(self)@.step(
                Event::Read(
                    match r {
                        Ok(c) => Ok(c@),
                        Err(k) => Err(k),
                    },
                ),
            ),
            final(self)@.wf(),
            match r {
                Ok(c) => if c@.len() == 0 {
                    a == Action::Close(PumpOutcome::NormalClose)
                } else {
                    a matches Action::Write(w) && w@ == c@
                },
                Err(k) => a == Action::Close(PumpOutcome::Failed(Operation::Read, k)),
            },
    {
        match r {
            Ok(chunk) => {
                if chunk.len() == 0 {
                    self.phase = Phase::Done(PumpOutcome::NormalClose);
                    Action::Close(PumpOutcome::NormalClose)
                } else {
                    self.phase = Phase::Writing;
                    self.received = Ghost(self.received@.push(chunk@));
                    proof {
                        assert(self.received@.drop_last() =~= old(self).received@);
                    }
                    Action::Write(chunk)
                }
            },
            Err(k) => {
                let o = PumpOutcome::Failed(Operation::Read, k);
                self.phase = Phase::Done(o);
                Action::Close(o)
            },
        }
    }

    /// Takes what the write and flush of the pending chunk returned. On
    /// success the chunk counts as delivered and the pump reads again; if the
    /// peer is gone the pump ends normally; any other failure ends it as
    /// failed.
    pub fn on_write(&mut self, r: Result<(), IoErrorKind>) -> (a: Action)
        requires
            old(self)@.wf(),
            old(self)@.phase == Phase::Writing,
        ensures
            final(self)@ == old(self)@.step(Event::Wrote(r)),
            final(self)@.wf(),
            match r {
                Ok(()) => a == Action::Read,
                Err(k) => a == Action::Close(write_outcome(k)),
            },
    {
        match r {
            Ok(()) => {
                self.phase = Phase::Reading;
                self.delivered = Ghost(self.received@);
                Action::Read
            },
            Err(k) => {
                let o = if k.is_peer_closed() {
                    PumpOutcome::PeerClosed
                } else {
                    PumpOutcome::Failed(Operation::Write, k)
                };
                self.phase = Phase::Done(o);
                Action::Close(o)
            },
        }
    }
}

/// The two pumps of one connection pair: forward copies inbound to
/// outbound, backward copies outbound to inbound. They share no state.
pub fn new_pair() -> (r: (Pump, Pump))
    ensures
        r.0@ == PumpView::initial(Direction::Forward),
        r.1@ == PumpView::initial(Direction::Backward),
        r.0@.wf(),
        r.1@.wf(),
{
    (Pump::new(Direction::Forward), Pump::new(Direction::Backward))
}

/// The events of a relay in which every chunk is written successfully and the
/// source then reaches end-of-stream.
pub open spec fn relay_events(chunks: Seq<Seq<u8>>) -> Seq<Event>
    decreases chunks.len(),
{
    if chunks.len() == 0 {
        seq![Event::Read(Ok(Seq::empty()))]
    } else {
        seq![Event::Read(Ok(chunks[0])), Event::Wrote(Ok(()))] + relay_events(chunks.drop_first())
    }
}

/// Every state a pump reaches is well formed: nothing is delivered that was
/// not received, in the same order, and at most the last chunk received is
/// not delivered.
pub proof fn lemma_run_wf(v: PumpView, es: Seq<Event>)
    requires
        v.wf(),
    ensures
        v.run(es).wf(),
        v.run(es).delivered.is_prefix_of(v.run(es).received),
        v.run(es).direction == v.direction,
    decreases es.len(),
{
    if es.len() == 0 {
        assert(v.delivered.is_prefix_of(v.received)) by {
            if v.delivered.len() < v.received.len() {
                assert(v.delivered =~= v.received.subrange(0, v.delivered.len() as int));
            }
        }
    } else {
        let w = v.step(es[0]);
        assert(w.wf()) by {
            if w.received.len() > v.received.len() {
                assert(w.received.drop_last() =~= v.received);
            }
        }
        lemma_run_wf(w, es.drop_first());
    }
}

/// Once a pump has ended, no event changes it.
pub proof fn lemma_done_terminal(v: PumpView, es: Seq<Event>)
    requires
        v.phase is Done,
    ensures
        v.run(es) == v,
    decreases es.len(),
{
    if es.len() > 0 {
        lemma_done_terminal(v.step(es[0]), es.drop_first());
    }
}

/// Byte fidelity: when every write succeeds, the pump delivers exactly the
/// chunks it read, in order and with nothing lost or repeated, so the
/// destination receives exactly the bytes the source sent; the pump then
/// ends normally at end-of-stream. This holds in either direction.
pub proof fn lemma_byte_fidelity(direction: Direction, chunks: Seq<Seq<u8>>)
    requires
        forall|i: int| 0 <= i < chunks.len() ==> #[trigger] chunks[i].len() > 0,
    ensures
        PumpView::initial(direction).run(relay_events(chunks)).phase == Phase::Done(
            PumpOutcome::NormalClose,
        ),
        PumpView::initial(direction).run(relay_events(chunks)).delivered == chunks,
        flatten(PumpView::initial(direction).run(relay_events(chunks)).delivered) == flatten(
            chunks,
        ),
{
    lemma_relay_from(PumpView::initial(direction), chunks);
    assert(seq![] + chunks =~= chunks);
}

proof fn lemma_relay_from(v: PumpView, chunks: Seq<Seq<u8>>)
    requires
        v.phase == Phase::Reading,
        v.delivered == v.received,
        forall|i: int| 0 <= i < chunks.len() ==> #[trigger] chunks[i].len() > 0,
    ensures
        v.run(relay_events(chunks)).phase == Phase::Done(PumpOutcome::NormalClose),
        v.run(relay_events(chunks)).delivered == v.delivered + chunks,
        v.run(relay_events(chunks)).received == v.received + chunks,
    decreases chunks.len(),
{
    let es = relay_events(chunks);
    if chunks.len() == 0 {
        assert(es.drop_first() =~= Seq::<Event>::empty());
        assert(v.run(es) == v.step(es[0]).run(es.drop_first()));
        assert(v.step(es[0]).run(es.drop_first()) == v.step(es[0]));
        assert(v.delivered + chunks =~= v.delivered);
        assert(v.received + chunks =~= v.received);
    } else {
        let rest = relay_events(chunks.drop_first());
        assert(chunks[0].len() > 0);
        let w1 = v.step(es[0]);
        assert(es.drop_first() =~= seq![Event::Wrote(Ok(()))] + rest);
        let w2 = w1.step(Event::Wrote(Ok(())));
        assert((seq![Event::Wrote(Ok(()))] + rest).drop_first() =~= rest);
        assert(v.run(es) == w1.run(es.drop_first()));
        assert(w1.run(es.drop_first()) == w2.run(rest));
        assert(forall|i: int|
            0 <= i < chunks.drop_first().len() ==> #[trigger] chunks.drop_first()[i] == chunks[i
                + 1]);
        lemma_relay_from(w2, chunks.drop_first());
        assert(w2.received == v.received.push(chunks[0]));
        assert(v.received.push(chunks[0]) + chunks.drop_first() =~= v.received + chunks);
    }
}

/// Half-close: when the source reaches end-of-stream the pump ends normally,
/// not as a failure, having delivered exactly what it received; its close
/// action then shuts down only the destination's write half, leaving the
/// other direction to go on.
pub proof fn lemma_half_close(v: PumpView)
    requires
        v.wf(),
        v.phase == Phase::Reading,
    ensures
        v.step(Event::Read(Ok(Seq::empty()))).phase == Phase::Done(PumpOutcome::NormalClose),
        v.step(Event::Read(Ok(Seq::empty()))).delivered == v.received,
        flatten(v.step(Event::Read(Ok(Seq::empty()))).delivered) == flatten(v.received),
        !PumpOutcome::NormalClose.failure(),
{
}

/// Peer-closed: a write to a peer that is gone ends the pump as
/// `PeerClosed`, which is not a failure, and no later event changes it; a
/// read that fails or ends the stream also ends the pump.
pub proof fn lemma_peer_closed(v: PumpView, k: IoErrorKind, es: Seq<Event>)
    requires
        v.wf(),
        v.phase == Phase::Writing,
        peer_gone(k),
    ensures
        v.step(Event::Wrote(Err(k))).phase == Phase::Done(PumpOutcome::PeerClosed),
        v.step(Event::Wrote(Err(k))).run(es) == v.step(Event::Wrote(Err(k))),
        !PumpOutcome::PeerClosed.failure(),
        forall|r: Result<Seq<u8>, IoErrorKind>|
            #![auto]
            !(r matches Ok(c) && c.len() > 0) ==> (PumpView { phase: Phase::Reading, ..v }).step(
                Event::Read(r),
            ).phase is Done,
{
    lemma_done_terminal(v.step(Event::Wrote(Err(k))), es);
}

} // verus!
