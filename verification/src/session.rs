//! The lifecycle of one connection session: `Connecting`, `Active`,
//! `Draining`, `Closed`, in this order. A session registers itself when it
//! becomes active and deregisters itself when it closes.

use crate::ident::{is_random_uuid, mint};
use crate::loops::{receive_step, Ending, Inbound, LoopSide, ReceiveStep};
use crate::registry::Registry;
use tokio::sync::mpsc::Sender;
use vstd::prelude::*;

verus! {

/// Where a session stands in its lifecycle.
#[derive(Clone, Copy, Debug, PartialEq, Eq, Structural)]
pub enum Phase {
    /// The connection is accepted and has its identifier; it is not
    /// registered yet.
    Connecting,
    /// The session is registered and both of its loops run.
    Active,
    /// One loop has stopped and the other is being cancelled.
    Draining,
    /// The session is deregistered.
    Closed,
}

impl Phase {
    /// Whether a session in this phase has an entry in the registry.
    pub open spec fn registered(self) -> bool {
        self == Phase::Active || self == Phase::Draining
    }
}

/// A session as contracts see it.
pub struct SessionState {
    pub id: u128,
    pub phase: Phase,
}

impl SessionState {
    /// The session after an attempt to open it: a connecting session becomes
    /// active, any other stays as it is.
    pub open spec fn after_open(self) -> SessionState {
        if self.phase == Phase::Connecting {
            SessionState { id: self.id, phase: Phase::Active }
        } else {
            self
        }
    }

    /// The session after one of its loops has stopped: an active session
    /// starts draining, any other stays as it is.
    pub open spec fn after_loop_finished(self) -> SessionState {
        if self.phase == Phase::Active {
            SessionState { id: self.id, phase: Phase::Draining }
        } else {
            self
        }
    }

    /// The session after an attempt to close it: a draining session becomes
    /// closed, any other stays as it is.
    pub open spec fn after_close(self) -> SessionState {
        if self.phase == Phase::Draining {
            SessionState { id: self.id, phase: Phase::Closed }
        } else {
            self
        }
    }

    /// The loop to cancel when the loop `finished` has stopped: the other
    /// one, if the session was active; none in any other phase.
    pub open spec fn to_cancel(self, finished: LoopSide) -> Option<LoopSide> {
        if self.phase == Phase::Active {
            Some(finished.opposite())
        } else {
            None
        }
    }

    /// The registry after an attempt to open the session with `handle` as
    /// its outbound channel.
    pub open spec fn registry_after_open(
        self,
        registry: Map<u128, Sender<String>>,
        handle: Sender<String>,
    ) -> Map<u128, Sender<String>> {
        if self.phase == Phase::Connecting {
            registry.insert(self.id, handle)
        } else {
            registry
        }
    }

    /// The registry after an attempt to close the session.
    pub open spec fn registry_after_close(self, registry: Map<u128, Sender<String>>) -> Map<
        u128,
        Sender<String>,
    > {
        if self.phase == Phase::Draining {
            registry.remove(self.id)
        } else {
            registry
        }
    }
}

/// Whether the registry holds exactly the identifiers of those sessions
/// that are active or draining, `phases` giving the phase of every session
/// there is by its identifier.
pub open spec fn tracks(registry: Map<u128, Sender<String>>, phases: Map<u128, Phase>) -> bool {
    forall|id: u128|
        registry.contains_key(id) <==> (phases.contains_key(id) && (#[trigger] phases[id]).registered())
}

/// One connection session: its identifier, which never changes, and its
/// phase.
pub struct Session {
    id: u128,
    phase: Phase,
}

impl View for Session {
    type V = SessionState;

    closed spec fn view(&self) -> SessionState {
        SessionState { id: self.id, phase: self.phase }
    }
}

impl Session {
    /// A connecting session with a freshly minted random identifier.
    pub fn accept() -> (session: Session)
        ensures
            session@.phase == Phase::Connecting,
            is_random_uuid(session@.id),
    {
        Session { id: mint(), phase: Phase::Connecting }
    }

    /// A connecting session with the identifier `id`.
    pub fn with_id(id: u128) -> (session: Session)
        ensures
            session@ == (SessionState { id, phase: Phase::Connecting }),
    {
        Session { id, phase: Phase::Connecting }
    }

    /// The session's identifier.
    pub fn id(&self) -> (id: u128)
        ensures
            id == self@.id,
    {
        self.id
    }

    /// The session's phase.
    pub fn phase(&self) -> (phase: Phase)
        ensures
            phase == self@.phase,
    {
        self.phase
    }

    /// Registers a connecting session with `handle` as its outbound channel
    /// and makes it active; returns the number of connections registered
    /// after that. A session in any other phase is left as it is, with the
    /// registry, and `None` is returned.
    pub fn open(&mut self, registry: &mut Registry, handle: Sender<String>) -> (total: Option<usize>)
        ensures
            final(self)@ == old(self)@.after_open(),
            final(registry)@ == old(self)@.registry_after_open(old(registry)@, handle),
            match total {
                Some(count) => old(self)@.phase == Phase::Connecting
                    && count == final(registry)@.len(),
                None => old(self)@.phase != Phase::Connecting,
            },
    {
        match self.phase {
            Phase::Connecting => {
                registry.register(self.id, handle);
                self.phase = Phase::Active;
                Some(registry.size())
            },
            _ => None,
        }
    }

    /// Records that the loop `finished` of an active session has stopped:
    /// the session starts draining, and the other loop is returned as the
    /// one to cancel. A session in any other phase is left as it is and
    /// `None` is returned.
    pub fn loop_finished(&mut self, finished: LoopSide) -> (cancel: Option<LoopSide>)
        ensures
            final(self)@ == old(self)@.after_loop_finished(),
            cancel == old(self)@.to_cancel(finished),
    {
        match self.phase {
            Phase::Active => {
                self.phase = Phase::Draining;
                Some(finished.other())
            },
            _ => None,
        }
    }

    /// Deregisters a draining session and closes it; returns whether it did.
    /// A session in any other phase is left as it is, with the registry.
    pub fn close(&mut self, registry: &mut Registry) -> (done: bool)
        ensures
            final(self)@ == old(self)@.after_close(),
            final(registry)@ == old(self)@.registry_after_close(old(registry)@),
            done == (old(self)@.phase == Phase::Draining),
    {
        match self.phase {
            Phase::Draining => {
                registry.deregister(self.id);
                self.phase = Phase::Closed;
                true
            },
            _ => false,
        }
    }
}

/// A loop that stops takes the session down in two steps. Whatever ends
/// one loop of an active session, the session starts draining and the other
/// loop is the one to cancel; closing the draining session then removes its
/// identifier from the registry and leaves it closed. A close frame from the
/// peer is such an ending: the receive loop stops on it, so the send loop is
/// cancelled.
pub proof fn lemma_stopped_loop_ends_session(
    session: SessionState,
    registry: Map<u128, Sender<String>>,
    ending: Ending,
)
    requires
        session.phase == Phase::Active,
    ensures
        receive_step(Inbound::Close) == ReceiveStep::Stop(Ending::PeerClosed),
        Ending::PeerClosed.side() == LoopSide::Receive,
        session.to_cancel(LoopSide::Receive) == Some(LoopSide::Send),
        session.to_cancel(ending.side()) == Some(ending.side().opposite()),
        session.after_loop_finished().phase == Phase::Draining,
        session.after_loop_finished().after_close().phase == Phase::Closed,
        session.after_loop_finished().after_close().id == session.id,
        !session.after_loop_finished().registry_after_close(registry).contains_key(session.id),
{
}

/// The registry follows the sessions. If the registry holds exactly the
/// identifiers of the sessions that are active or draining, then this is
/// still so after any session has been opened, has seen one of its loops
/// stop, or has been closed.
pub proof fn lemma_registry_tracks_sessions(
    session: SessionState,
    registry: Map<u128, Sender<String>>,
    phases: Map<u128, Phase>,
    handle: Sender<String>,
)
    requires
        tracks(registry, phases),
        phases.contains_key(session.id),
        phases[session.id] == session.phase,
    ensures
        tracks(
            session.registry_after_open(registry, handle),
            phases.insert(session.id, session.after_open().phase),
        ),
        tracks(registry, phases.insert(session.id, session.after_loop_finished().phase)),
        tracks(
            session.registry_after_close(registry),
            phases.insert(session.id, session.after_close().phase),
        ),
{
    assert(phases[session.id].registered() == session.phase.registered());
}

/// A session that has just been accepted, under an identifier that no
/// other session has, is not in the registry: the registry still holds
/// exactly the identifiers of the sessions that are active or draining.
pub proof fn lemma_registry_tracks_newcomer(
    registry: Map<u128, Sender<String>>,
    phases: Map<u128, Phase>,
    newcomer: u128,
)
    requires
        tracks(registry, phases),
        !phases.contains_key(newcomer),
    ensures
        tracks(registry, phases.insert(newcomer, Phase::Connecting)),
{
}

} // verus!
