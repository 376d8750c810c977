use vstd::prelude::*;
use crate::codec::{
    open_frame, open_outcome, seal_frame, sealed_frame, CodecError, Envelope, MessageType,
    ReceiveError,
};
use crate::crypto::{KeyPair, TAG_LEN};
use crate::nonce::{Nonce, NonceError, NonceTracker, NONCE_LEN};
use crate::state::{
    failure_reason, InitiatorHandshakeState, PeerEvent, ResponderHandshakeState, ServerHandshakeState,
    ServerMessage, SignalingState, StateError,
};

verus! {

/// An error raised while sending a task message.
#[derive(Debug, PartialEq, Eq, Clone, Copy, Structural)]
pub enum SendError {
    State(StateError),
    Nonce(NonceError),
}

/// An error raised while receiving a task message.
#[derive(Debug, PartialEq, Eq, Clone, Copy, Structural)]
pub enum TaskReceiveError {
    State(StateError),
    Receive(ReceiveError),
}

/// Whether `r` is what the task phase hands on for the opened frame
/// `inner`: the body of an application message, the error of a frame that
/// could not be received, `UnknownType` for another message type.
pub open spec fn task_result(
    inner: Result<Envelope, ReceiveError>,
    r: Result<Vec<u8>, TaskReceiveError>,
) -> bool {
    match inner {
        Ok(e) => if e.message_type == MessageType::Application {
            r is Ok && r->Ok_0@ == e.body@
        } else {
            r == Err::<Vec<u8>, TaskReceiveError>(
                TaskReceiveError::Receive(ReceiveError::Codec(CodecError::UnknownType)),
            )
        },
        Err(x) => r == Err::<Vec<u8>, TaskReceiveError>(TaskReceiveError::Receive(x)),
    }
}

/// The secure channel to the peer: this client's key pair and address, the
/// peer's public key and address, and the nonce bookkeeping for the peer.
pub struct PeerChannel {
    pub state: SignalingState,
    pub keys: KeyPair,
    pub address: u8,
    pub peer_public: [u8; 32],
    pub peer_address: u8,
    pub tracker: NonceTracker,
}

impl PeerChannel {
    pub open spec fn wf(&self) -> bool {
        self.tracker.wf()
    }

    /// Seals an application payload for the peer. Only valid in the `Task`
    /// phase; each message takes the next outgoing nonce of the direction.
    pub fn handle_outgoing_task_message(&mut self, payload: &Vec<u8>) -> (r: Result<
        Vec<u8>,
        SendError,
    >)
        requires
            old(self).wf(),
        ensures
            final(self).wf(),
            final(self).state == old(self).state,
            final(self).peer_public == old(self).peer_public,
            final(self).address == old(self).address,
            final(self).peer_address == old(self).peer_address,
            old(self).state != SignalingState::Task ==> r == Err::<Vec<u8>, SendError>(
                SendError::State(StateError::NotReady),
            ) && final(self).tracker == old(self).tracker,
            old(self).state == SignalingState::Task && old(self).tracker.next_csn
                > crate::nonce::MAX_CSN ==> r == Err::<Vec<u8>, SendError>(
                SendError::Nonce(NonceError::Exhausted),
            ),
            old(self).state == SignalingState::Task && old(self).tracker.next_csn
                <= crate::nonce::MAX_CSN ==> r is Ok,
            r is Ok ==> r->Ok_0@.len() == NONCE_LEN + 1 + payload@.len() + TAG_LEN,
            r is Ok ==> exists|n: Nonce|
                old(self).tracker.issues(old(self).address, old(self).peer_address, final(self).tracker, n)
                    && r->Ok_0@ == #[trigger] sealed_frame(
                    Envelope { nonce: n, message_type: MessageType::Application, body: *payload },
                    old(self).keys.secret_view(),
                    old(self).peer_public@,
                ),
    {
        match self.state.require_task() {
            Ok(()) => {},
            Err(x) => {
                return Err(SendError::State(x));
            },
        }
        let nonce = match self.tracker.next_outgoing(self.address, self.peer_address) {
            Ok(n) => n,
            Err(x) => {
                return Err(SendError::Nonce(x));
            },
        };
        let e = Envelope { nonce, message_type: MessageType::Application, body: payload.clone() };
        let f = seal_frame(&e, &self.keys, &self.peer_public);
        proof {
            assert(sealed_frame(e, self.keys.secret_view(), self.peer_public@) == sealed_frame(
                Envelope { nonce, message_type: MessageType::Application, body: *payload },
                self.keys.secret_view(),
                self.peer_public@,
            ));
        }
        Ok(f)
    }

    /// Opens a frame from the peer and returns its application payload.
    /// Only valid in the `Task` phase; a frame that is not an application
    /// message is an `UnknownType` error.
    pub fn handle_incoming_task_frame(&mut self, frame: &[u8]) -> (r: Result<
        Vec<u8>,
        TaskReceiveError,
    >)
        requires
            old(self).wf(),
        ensures
            final(self).wf(),
            final(self).state == old(self).state,
            old(self).state != SignalingState::Task ==> r == Err::<Vec<u8>, TaskReceiveError>(
                TaskReceiveError::State(StateError::NotReady),
            ) && final(self).tracker == old(self).tracker,
            old(self).state == SignalingState::Task && frame@.len() < NONCE_LEN ==> r == Err::<
                Vec<u8>,
                TaskReceiveError,
            >(TaskReceiveError::Receive(ReceiveError::Codec(CodecError::Truncated))),
            old(self).state == SignalingState::Task ==> exists|inner: Result<Envelope, ReceiveError>|
                open_outcome(
                    old(self).tracker,
                    old(self).keys.secret_view(),
                    old(self).peer_public@,
                    frame@,
                    inner,
                    final(self).tracker,
                ) && #[trigger] task_result(inner, r),
    {
        match self.state.require_task() {
            Ok(()) => {},
            Err(x) => {
                return Err(TaskReceiveError::State(x));
            },
        }
        let inner = open_frame(frame, &mut self.tracker, &self.keys, &self.peer_public);
        let r = match &inner {
            Ok(e) => match e.message_type {
                MessageType::Application => Ok(e.body.clone()),
                _ => Err(TaskReceiveError::Receive(ReceiveError::Codec(CodecError::UnknownType))),
            },
            Err(x) => Err(TaskReceiveError::Receive(*x)),
        };
        proof {
            assert(task_result(inner, r));
        }
        r
    }
}

/// The peer handshake of either role.
#[derive(Debug, PartialEq, Eq, Clone)]
pub enum PeerHandshake {
    Initiator(InitiatorHandshakeState),
    Responder(ResponderHandshakeState),
}

impl PeerHandshake {
    pub open spec fn is_failure(&self) -> bool {
        match self {
            PeerHandshake::Initiator(s) => s.is_failure(),
            PeerHandshake::Responder(s) => s.is_failure(),
        }
    }

    pub open spec fn has_reason(&self) -> bool {
        match self {
            PeerHandshake::Initiator(s) => s.has_reason(),
            PeerHandshake::Responder(s) => s.has_reason(),
        }
    }

    pub open spec fn is_done(&self) -> bool {
        match self {
            PeerHandshake::Initiator(s) => s.is_done(),
            PeerHandshake::Responder(s) => s.is_done(),
        }
    }
}

/// A handshake event handed to the orchestrator.
#[derive(Debug, PartialEq, Eq, Clone, Copy, Structural)]
pub enum HandshakeEvent {
    Server(ServerMessage),
    Peer(PeerEvent),
}

/// The role of this client in the peer handshake.
#[derive(Debug, PartialEq, Eq, Clone, Copy, Structural)]
pub enum Role {
    Initiator,
    Responder,
}

/// Owns the connection's phase and the handshake state machines, and
/// dispatches each handshake event to the machine of the current phase.
#[derive(Debug, Clone)]
pub struct Orchestrator {
    pub state: SignalingState,
    pub server: ServerHandshakeState,
    pub peer: PeerHandshake,
}

impl Orchestrator {
    /// Whether a handshake machine has failed, which ends the connection.
    pub open spec fn failed(&self) -> bool {
        self.server.is_failure() || self.peer.is_failure()
    }

    /// A connection at its start: server handshake phase, both machines new.
    pub fn new(role: Role) -> (r: Orchestrator)
        ensures
            r.state == SignalingState::ServerHandshake,
            r.server == ServerHandshakeState::New,
            r.peer == (match role {
                Role::Initiator => PeerHandshake::Initiator(InitiatorHandshakeState::New),
                Role::Responder => PeerHandshake::Responder(ResponderHandshakeState::New),
            }),
    {
        Orchestrator {
            state: SignalingState::ServerHandshake,
            server: ServerHandshakeState::New,
            peer: match role {
                Role::Initiator => PeerHandshake::Initiator(InitiatorHandshakeState::New),
                Role::Responder => PeerHandshake::Responder(ResponderHandshakeState::New),
            },
        }
    }

    /// Handles one handshake event. A server message in the server
    /// handshake phase goes to the server machine, a peer step in the peer
    /// handshake phase to the peer machine; the phase moves on when that
    /// machine completes. Any other event, or any event once a machine has
    /// failed, leaves a failed machine behind.
    pub fn handle(self, ev: HandshakeEvent) -> (r: Orchestrator)
        ensures
            self.state.rank() <= r.state.rank() <= self.state.rank() + 1,
            self.failed() ==> r.failed() && r.state == self.state,
            !self.failed() ==> r.server.has_reason() || r.server == self.server,
            !self.failed() ==> r.peer.has_reason() || r.peer == self.peer,
            r.state != self.state ==> !r.failed(),
            !self.failed() && self.state == SignalingState::ServerHandshake ==> match ev {
                HandshakeEvent::Server(m) => {
                    &&& r.peer == self.peer
                    &&& self.server.expected() == Some(m) ==> r.server == self.server.successor()
                    &&& self.server.expected() != Some(m) ==> r.server.is_failure()
                    &&& r.state == (if r.server is Done {
                        SignalingState::PeerHandshake
                    } else {
                        SignalingState::ServerHandshake
                    })
                },
                HandshakeEvent::Peer(_) => r.failed() && r.state == self.state,
            },
            !self.failed() && self.state == SignalingState::PeerHandshake ==> match ev {
                HandshakeEvent::Peer(e) => {
                    &&& r.server == self.server
                    &&& match (self.peer, r.peer) {
                        (PeerHandshake::Initiator(a), PeerHandshake::Initiator(b)) => {
                            &&& a.step(e) is Some ==> b == a.step(e)->0
                            &&& a.step(e) is None ==> b.is_failure()
                        },
                        (PeerHandshake::Responder(a), PeerHandshake::Responder(b)) => {
                            &&& a.step(e) is Some ==> b == a.step(e)->0
                            &&& a.step(e) is None ==> b.is_failure()
                        },
                        _ => false,
                    }
                    &&& r.state == (if r.peer.is_done() {
                        SignalingState::Task
                    } else {
                        SignalingState::PeerHandshake
                    })
                },
                HandshakeEvent::Server(_) => r.failed() && r.state == self.state,
            },
            !self.failed() && self.state == SignalingState::Task ==> r.failed() && r.state
                == self.state,
    {
        let Orchestrator { state, server, peer } = self;
        if server.is_failed() || peer.is_failed() {
            return Orchestrator { state, server, peer };
        }
        match (state, ev) {
            (SignalingState::ServerHandshake, HandshakeEvent::Server(m)) => {
                let server = server.advance(m);
                let state = state.after_server(&server);
                Orchestrator { state, server, peer }
            },
            (SignalingState::PeerHandshake, HandshakeEvent::Peer(e)) => {
                match peer {
                    PeerHandshake::Initiator(p) => {
                        let p = p.advance(e);
                        let state = state.after_initiator(&p);
                        Orchestrator { state, server, peer: PeerHandshake::Initiator(p) }
                    },
                    PeerHandshake::Responder(p) => {
                        let p = p.advance(e);
                        let state = state.after_responder(&p);
                        Orchestrator { state, server, peer: PeerHandshake::Responder(p) }
                    },
                }
            },
            (SignalingState::ServerHandshake, _) => Orchestrator {
                state,
                server: ServerHandshakeState::Failure({
                    proof {
                        reveal_strlit("peer step during the server handshake");
                    }
                    failure_reason("peer step during the server handshake")
                }),
                peer,
            },
            _ => Orchestrator { state, server, peer: peer.fail() },
        }
    }
}

impl Orchestrator {
    /// Records an error that ends the connection, such as a nonce, cookie,
    /// codec or crypto error on a received frame: the machine of the current
    /// phase moves to `Failure` with a diagnostic, and the phase stays.
    pub fn abort(self) -> (r: Orchestrator)
        ensures
            r.failed(),
            r.state == self.state,
            self.failed() ==> r == self,
            !self.failed() && self.state == SignalingState::ServerHandshake ==> r.server.is_failure()
                && r.server.has_reason() && r.peer == self.peer,
            !self.failed() && self.state != SignalingState::ServerHandshake ==> r.peer.is_failure()
                && r.peer.has_reason() && r.server == self.server,
    {
        let Orchestrator { state, server, peer } = self;
        if server.is_failed() || peer.is_failed() {
            return Orchestrator { state, server, peer };
        }
        match state {
            SignalingState::ServerHandshake => Orchestrator {
                state,
                server: ServerHandshakeState::Failure({
                    proof {
                        reveal_strlit("received frame refused");
                    }
                    failure_reason("received frame refused")
                }),
                peer,
            },
            _ => Orchestrator { state, server, peer: peer.fail() },
        }
    }
}

impl PeerHandshake {
    /// Whether the machine has failed.
    pub fn is_failed(&self) -> (r: bool)
        ensures
            r == self.is_failure(),
    {
        match self {
            PeerHandshake::Initiator(InitiatorHandshakeState::Failure(_)) => true,
            PeerHandshake::Responder(ResponderHandshakeState::Failure(_)) => true,
            _ => false,
        }
    }

    /// The machine moved to `Failure` by an event out of its phase; a
    /// machine that already failed keeps its reason.
    pub fn fail(self) -> (r: PeerHandshake)
        ensures
            r.is_failure(),
            self.is_failure() ==> r == self,
            !self.is_failure() ==> r.has_reason(),
            r is Initiator <==> self is Initiator,
    {
        match self {
            PeerHandshake::Initiator(InitiatorHandshakeState::Failure(m)) => PeerHandshake::Initiator(
                InitiatorHandshakeState::Failure(m),
            ),
            PeerHandshake::Responder(ResponderHandshakeState::Failure(m)) => PeerHandshake::Responder(
                ResponderHandshakeState::Failure(m),
            ),
            PeerHandshake::Initiator(_) => PeerHandshake::Initiator(
                InitiatorHandshakeState::Failure({
                    proof {
                        reveal_strlit("handshake event out of phase");
                    }
                    failure_reason("handshake event out of phase")
                }),
            ),
            PeerHandshake::Responder(_) => PeerHandshake::Responder(
                ResponderHandshakeState::Failure({
                    proof {
                        reveal_strlit("handshake event out of phase");
                    }
                    failure_reason("handshake event out of phase")
                }),
            ),
        }
    }
}

} // verus!
