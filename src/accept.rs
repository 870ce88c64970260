use crate::fault::IoErrorKind;
use vstd::prelude::*;

verus! {

/// Where the accept loop stands.
#[derive(Clone, Copy, Debug, PartialEq, Eq, Structural)]
pub enum LoopPhase {
    /// Waiting for the next inbound connection.
    Accepting,
    /// An inbound connection was accepted; its outbound leg is being dialed.
    Dialing,
    /// Accepting failed; the loop has ended with that failure.
    Stopped(IoErrorKind),
}

/// What the caller is to do next for the accept loop.
#[derive(Clone, Copy, Debug, PartialEq, Eq, Structural)]
pub enum LoopAction {
    /// Accept the next inbound connection.
    Accept,
    /// Dial the target for the connection just accepted.
    Dial,
    /// Hand the accepted and the dialed connection to a new connection pair,
    /// detached, then accept again.
    SpawnPair,
    /// Drop the accepted connection, whose dial failed, then accept again.
    DropInbound,
    /// End the loop and report this failure.
    Stop(IoErrorKind),
}

/// A result the caller hands back to the accept loop.
pub enum LoopEvent {
    Accepted(Result<(), IoErrorKind>),
    Dialed(Result<(), IoErrorKind>),
}

/// The abstract state of the accept loop: its phase and how many
/// connections were accepted, dialed for, paired and dropped so far.
pub struct LoopView {
    pub phase: LoopPhase,
    pub accepted: nat,
    pub dials: nat,
    pub paired: nat,
    pub dropped: nat,
}

impl LoopView {
    pub open spec fn initial() -> LoopView {
        LoopView { phase: LoopPhase::Accepting, accepted: 0, dials: 0, paired: 0, dropped: 0 }
    }

    /// Each accepted connection is dialed for once, on its own, and then
    /// either paired or dropped; only the one being dialed is neither.
    pub open spec fn wf(self) -> bool {
        &&& self.paired + self.dropped == self.dials
        &&& if self.phase == LoopPhase::Dialing {
            self.accepted == self.dials + 1
        } else {
            self.accepted == self.dials
        }
    }

    /// The state after one event. An event out of turn leaves it unchanged.
    pub open spec fn step(self, e: LoopEvent) -> LoopView {
        match (self.phase, e) {
            (LoopPhase::Accepting, LoopEvent::Accepted(Ok(()))) => LoopView {
                phase: LoopPhase::Dialing,
                accepted: self.accepted + 1,
                ..self
            },
            (LoopPhase::Accepting, LoopEvent::Accepted(Err(k))) => LoopView {
                phase: LoopPhase::Stopped(k),
                ..self
            },
            (LoopPhase::Dialing, LoopEvent::Dialed(Ok(()))) => LoopView {
                phase: LoopPhase::Accepting,
                dials: self.dials + 1,
                paired: self.paired + 1,
                ..self
            },
            (LoopPhase::Dialing, LoopEvent::Dialed(Err(_))) => LoopView {
                phase: LoopPhase::Accepting,
                dials: self.dials + 1,
                dropped: self.dropped + 1,
                ..self
            },
            _ => self,
        }
    }

    /// The action that follows an event.
    pub open spec fn action(self, e: LoopEvent) -> LoopAction {
        match (self.phase, e) {
            (LoopPhase::Accepting, LoopEvent::Accepted(Ok(()))) => LoopAction::Dial,
            (LoopPhase::Accepting, LoopEvent::Accepted(Err(k))) => LoopAction::Stop(k),
            (LoopPhase::Dialing, LoopEvent::Dialed(Ok(()))) => LoopAction::SpawnPair,
            (LoopPhase::Dialing, LoopEvent::Dialed(Err(_))) => LoopAction::DropInbound,
            (LoopPhase::Stopped(k), _) => LoopAction::Stop(k),
            (LoopPhase::Accepting, _) => LoopAction::Accept,
            (LoopPhase::Dialing, _) => LoopAction::Dial,
        }
    }

    /// The state after a sequence of events.
    pub open spec fn run(self, es: Seq<LoopEvent>) -> LoopView
        decreases es.len(),
    {
        if es.len() == 0 {
            self
        } else {
            self.step(es[0]).run(es.drop_first())
        }
    }
}

/// The accept loop: a state machine that the caller drives by performing
/// each action it returns and handing back the result. A failed dial
/// affects only the connection it was for; a failed accept ends the loop.
pub struct AcceptLoop {
    phase: LoopPhase,
    accepted: Ghost<nat>,
    dials: Ghost<nat>,
    paired: Ghost<nat>,
    dropped: Ghost<nat>,
}

impl View for AcceptLoop {
    type V = LoopView;

    closed spec fn view(&self) -> LoopView {
        LoopView {
            phase: self.phase,
            accepted: self.accepted@,
            dials: self.dials@,
            paired: self.paired@,
            dropped: self.dropped@,
        }
    }
}

impl AcceptLoop {
    /// A loop that starts by accepting.
    pub fn new() -> (r: AcceptLoop)
        ensures
            r@ == LoopView::initial(),
            r@.wf(),
    {
        AcceptLoop {
            phase: LoopPhase::Accepting,
            accepted: Ghost(0),
            dials: Ghost(0),
            paired: Ghost(0),
            dropped: Ghost(0),
        }
    }

    pub fn phase(&self) -> (r: LoopPhase)
        ensures
            r == self@.phase,
    {
        self.phase
    }

    /// Takes what accepting returned: on success the target is dialed next;
    /// on failure the loop stops with that failure.
    pub fn on_accept(&mut self, r: Result<(), IoErrorKind>) -> (a: LoopAction)
        requires
            old(self)@.wf(),
            old(self)@.phase == LoopPhase::Accepting,
        ensures
            final(self)@ == old(self)@.step(LoopEvent::Accepted(r)),
            a == old(self)@.action(LoopEvent::Accepted(r)),
            final(self)@.wf(),
    {
        match r {
            Ok(()) => {
                self.phase = LoopPhase::Dialing;
                self.accepted = Ghost(self.accepted@ + 1);
                LoopAction::Dial
            },
            Err(k) => {
                self.phase = LoopPhase::Stopped(k);
                LoopAction::Stop(k)
            },
        }
    }

    /// Takes what dialing the target returned: on success the two
    /// connections become a pair; on failure the accepted connection is
    /// dropped. Either way the loop accepts again.
    pub fn on_dial(&mut self, r: Result<(), IoErrorKind>) -> (a: LoopAction)
        requires
            old(self)@.wf(),
            old(self)@.phase == LoopPhase::Dialing,
        ensures
            final(self)@ == old(self)@.step(LoopEvent::Dialed(r)),
            a == old(self)@.action(LoopEvent::Dialed(r)),
            final(self)@.wf(),
            final(self)@.phase == LoopPhase::Accepting,
    {
        self.phase = LoopPhase::Accepting;
        self.dials = Ghost(self.dials@ + 1);
        match r {
            Ok(()) => {
                self.paired = Ghost(self.paired@ + 1);
                LoopAction::SpawnPair
            },
            Err(_) => {
                self.dropped = Ghost(self.dropped@ + 1);
                LoopAction::DropInbound
            },
        }
    }
}

/// Every state the loop reaches is well formed: each accepted connection
/// gets an outbound leg dialed for it alone, so no two inbound connections
/// ever share one, and no more pairs exist than successful dials.
pub proof fn lemma_loop_run_wf(v: LoopView, es: Seq<LoopEvent>)
    requires
        v.wf(),
    ensures
        v.run(es).wf(),
        v.run(es).paired <= v.run(es).dials,
        v.run(es).dials <= v.run(es).accepted,
    decreases es.len(),
{
    if es.len() > 0 {
        lemma_loop_run_wf(v.step(es[0]), es.drop_first());
    }
}

/// A failed dial affects only its own connection: the loop goes back to
/// accepting, and the next connection accepted whose dial succeeds is
/// paired and relayed.
pub proof fn lemma_dial_failure_isolated(v: LoopView, k: IoErrorKind)
    requires
        v.wf(),
        v.phase == LoopPhase::Accepting,
    ensures
        ({
            let failed = v.step(LoopEvent::Accepted(Ok(()))).step(LoopEvent::Dialed(Err(k)));
            let dialing = failed.step(LoopEvent::Accepted(Ok(())));
            &&& v.step(LoopEvent::Accepted(Ok(()))).action(LoopEvent::Dialed(Err(k)))
                == LoopAction::DropInbound
            &&& failed.phase == LoopPhase::Accepting
            &&& failed.wf()
            &&& failed.dropped == v.dropped + 1
            &&& failed.action(LoopEvent::Accepted(Ok(()))) == LoopAction::Dial
            &&& dialing.action(LoopEvent::Dialed(Ok(()))) == LoopAction::SpawnPair
            &&& dialing.step(LoopEvent::Dialed(Ok(()))).phase == LoopPhase::Accepting
            &&& dialing.step(LoopEvent::Dialed(Ok(()))).paired == v.paired + 1
        }),
{
}

/// A failed accept is never masked: the loop stops with that failure, and
/// no later event changes it or leads to any other action.
pub proof fn lemma_accept_failure_fatal(v: LoopView, k: IoErrorKind, es: Seq<LoopEvent>)
    requires
        v.phase == LoopPhase::Accepting,
    ensures
        v.action(LoopEvent::Accepted(Err(k))) == LoopAction::Stop(k),
        v.step(LoopEvent::Accepted(Err(k))).run(es) == v.step(LoopEvent::Accepted(Err(k))),
        forall|e: LoopEvent|
            #[trigger] v.step(LoopEvent::Accepted(Err(k))).action(e) == LoopAction::Stop(k),
{
    lemma_stopped_terminal(v.step(LoopEvent::Accepted(Err(k))), es);
}

proof fn lemma_stopped_terminal(v: LoopView, es: Seq<LoopEvent>)
    requires
        v.phase is Stopped,
    ensures
        v.run(es) == v,
    decreases es.len(),
{
    if es.len() > 0 {
        lemma_stopped_terminal(v.step(es[0]), es.drop_first());
    }
}

} // verus!
