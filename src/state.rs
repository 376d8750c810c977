use vstd::prelude::*;

verus! {

/// The error message carried by a `Failure` state.
pub type FailureMsg = String;

/// A failure reason with the given non-empty text.
pub fn failure_reason(text: &str) -> (r: String)
    requires
        text@.len() > 0,
    ensures
        r@ == text@,
        r@.len() > 0,
{
    broadcast use vstd::string::to_string_from_display_ensures_for_str;

    text.to_string()
}

/// Top-level phase of a connection.
#[derive(Debug, PartialEq, Eq, Clone, Copy, Structural)]
pub enum SignalingState {
    ServerHandshake,
    PeerHandshake,
    Task,
}

/// A message of the server handshake, as seen by this client.
#[derive(Debug, PartialEq, Eq, Clone, Copy, Structural)]
pub enum ServerMessage {
    /// The client-hello (responder only) and client-auth messages were sent.
    ClientInfo,
    /// A valid server-auth message was received.
    ServerAuth,
}

/// The server handshake states.
///
/// Any invalid transition leads to the terminal `Failure` state.
#[derive(Debug, PartialEq, Eq, Clone)]
pub enum ServerHandshakeState {
    /// Initial state.
    New,
    /// The client-hello (only responder) and client-auth messages have been sent.
    ClientInfoSent,
    /// The server-auth message has been received and processed.
    Done,
    /// Something went wrong. This is a terminal state.
    Failure(String),
}

impl ServerHandshakeState {
    pub open spec fn is_failure(&self) -> bool {
        self is Failure
    }

    /// Whether a `Failure` state carries a non-empty diagnostic.
    pub open spec fn has_reason(&self) -> bool {
        match self {
            ServerHandshakeState::Failure(m) => m@.len() > 0,
            _ => true,
        }
    }

    /// The message that moves this state forward, if any.
    pub open spec fn expected(&self) -> Option<ServerMessage> {
        match self {
            ServerHandshakeState::New => Some(ServerMessage::ClientInfo),
            ServerHandshakeState::ClientInfoSent => Some(ServerMessage::ServerAuth),
            _ => None,
        }
    }

    /// The state that the expected message leads to.
    pub open spec fn successor(&self) -> ServerHandshakeState {
        match self {
            ServerHandshakeState::New => ServerHandshakeState::ClientInfoSent,
            _ => ServerHandshakeState::Done,
        }
    }

    /// The state after handling `msg`: the next state when `msg` is the one
    /// expected, `Failure` otherwise. `Failure` is never left.
    pub fn advance(self, msg: ServerMessage) -> (r: ServerHandshakeState)
        ensures
            self.is_failure() ==> r == self,
            !self.is_failure() && self.expected() == Some(msg) ==> r == self.successor(),
            !self.is_failure() && self.expected() != Some(msg) ==> r.is_failure() && r.has_reason(),
    {
        match self {
            ServerHandshakeState::New => match msg {
                ServerMessage::ClientInfo => ServerHandshakeState::ClientInfoSent,
                ServerMessage::ServerAuth => ServerHandshakeState::Failure(
                    {
                    proof {
                        reveal_strlit("server-auth received before client info was sent");
                    }
                    failure_reason("server-auth received before client info was sent")
                },
                ),
            },
            ServerHandshakeState::ClientInfoSent => match msg {
                ServerMessage::ServerAuth => ServerHandshakeState::Done,
                ServerMessage::ClientInfo => ServerHandshakeState::Failure(
                    {
                    proof {
                        reveal_strlit("client info sent twice");
                    }
                    failure_reason("client info sent twice")
                },
                ),
            },
            ServerHandshakeState::Done => ServerHandshakeState::Failure(
                {
                    proof {
                        reveal_strlit("message received after the server handshake was done");
                    }
                    failure_reason("message received after the server handshake was done")
                },
            ),
            ServerHandshakeState::Failure(reason) => ServerHandshakeState::Failure(reason),
        }
    }

    /// Whether the machine has failed.
    pub fn is_failed(&self) -> (r: bool)
        ensures
            r == self.is_failure(),
    {
        match self {
            ServerHandshakeState::Failure(_) => true,
            _ => false,
        }
    }

    /// Whether handling `msgs` in order from this state ends in `Failure`.
    pub open spec fn fails_after(self, msgs: Seq<ServerMessage>) -> bool
        decreases msgs.len(),
    {
        if self.is_failure() {
            true
        } else if msgs.len() == 0 {
            false
        } else if self.expected() == Some(msgs[0]) {
            self.successor().fails_after(msgs.drop_first())
        } else {
            true
        }
    }

    /// The state reached by handling `msgs` in order, where none fails.
    pub open spec fn reached(self, msgs: Seq<ServerMessage>) -> ServerHandshakeState
        decreases msgs.len(),
    {
        if msgs.len() == 0 || self.is_failure() || self.expected() != Some(msgs[0]) {
            self
        } else {
            self.successor().reached(msgs.drop_first())
        }
    }

    /// Handles `msgs` in order.
    pub fn run(self, msgs: &Vec<ServerMessage>) -> (r: ServerHandshakeState)
        ensures
            r.is_failure() == self.fails_after(msgs@),
            !self.fails_after(msgs@) ==> r == self.reached(msgs@),
    {
        let mut s = self;
        let mut i: usize = 0;
        proof {
            assert(msgs@.skip(0) =~= msgs@);
        }
        while i < msgs.len()
            invariant
                i <= msgs.len(),
                self.fails_after(msgs@) == s.fails_after(msgs@.skip(i as int)),
                !self.fails_after(msgs@) ==> self.reached(msgs@) == s.reached(msgs@.skip(i as int)),
            decreases msgs.len() - i,
        {
            proof {
                assert(msgs@.skip(i as int).drop_first() =~= msgs@.skip(i + 1));
            }
            s = s.advance(msgs[i]);
            i = i + 1;
        }
        proof {
            assert(msgs@.skip(i as int).len() == 0);
        }
        s
    }
}

/// Once the server handshake has failed it stays failed, whatever follows.
pub proof fn lemma_server_failure_absorbing(s: ServerHandshakeState, msgs: Seq<ServerMessage>)
    requires
        s.is_failure(),
    ensures
        s.fails_after(msgs),
{
}

/// A message delivered out of order during the server handshake ends it in
/// `Failure`, and no later message brings it back.
pub proof fn lemma_server_out_of_order(
    s: ServerHandshakeState,
    msg: ServerMessage,
    rest: Seq<ServerMessage>,
)
    requires
        s.expected() != Some(msg),
    ensures
        s.fails_after(seq![msg] + rest),
{
}

/// A step of the peer handshake, as seen by one side.
#[derive(Debug, PartialEq, Eq, Clone, Copy, Structural)]
pub enum PeerEvent {
    SentToken,
    ReceivedToken,
    SentKey,
    ReceivedKey,
    SentAuth,
    ReceivedAuth,
}

/// The initiator handshake states.
#[derive(Debug, PartialEq, Eq, Clone)]
pub enum InitiatorHandshakeState {
    New,
    TokenSent,
    KeySent,
    KeyReceived,
    AuthSent,
    AuthReceived,
    Failure(String),
}

impl InitiatorHandshakeState {
    pub open spec fn is_failure(&self) -> bool {
        self is Failure
    }

    /// Whether a `Failure` state carries a non-empty diagnostic.
    pub open spec fn has_reason(&self) -> bool {
        match self {
            InitiatorHandshakeState::Failure(m) => m@.len() > 0,
            _ => true,
        }
    }

    /// Whether the peer handshake has completed on this side.
    pub open spec fn is_done(&self) -> bool {
        self is AuthReceived
    }

    /// The state that `ev` leads to from this state, if `ev` is the step
    /// expected here.
    pub open spec fn step(&self, ev: PeerEvent) -> Option<InitiatorHandshakeState> {
        match (self, ev) {
            (InitiatorHandshakeState::New, PeerEvent::SentToken) => Some(InitiatorHandshakeState::TokenSent),
            (InitiatorHandshakeState::New, PeerEvent::SentKey) => Some(InitiatorHandshakeState::KeySent),
            (InitiatorHandshakeState::TokenSent, PeerEvent::SentKey) => Some(InitiatorHandshakeState::KeySent),
            (InitiatorHandshakeState::KeySent, PeerEvent::ReceivedKey) => Some(InitiatorHandshakeState::KeyReceived),
            (InitiatorHandshakeState::KeyReceived, PeerEvent::SentAuth) => Some(InitiatorHandshakeState::AuthSent),
            (InitiatorHandshakeState::AuthSent, PeerEvent::ReceivedAuth) => Some(InitiatorHandshakeState::AuthReceived),
            _ => None,
        }
    }

    /// The state after `ev`: the next state when `ev` is the step expected
    /// here, `Failure` otherwise. `Failure` is never left.
    pub fn advance(self, ev: PeerEvent) -> (r: InitiatorHandshakeState)
        ensures
            self.is_failure() ==> r == self,
            !self.is_failure() && self.step(ev) is Some ==> r == self.step(ev)->0,
            !self.is_failure() && self.step(ev) is None ==> r.is_failure() && r.has_reason(),
    {
        match self {
            InitiatorHandshakeState::Failure(reason) => InitiatorHandshakeState::Failure(reason),
            _ => match (self, ev) {
                (InitiatorHandshakeState::New, PeerEvent::SentToken) => InitiatorHandshakeState::TokenSent,
                (InitiatorHandshakeState::New, PeerEvent::SentKey) => InitiatorHandshakeState::KeySent,
                (InitiatorHandshakeState::TokenSent, PeerEvent::SentKey) => InitiatorHandshakeState::KeySent,
                (InitiatorHandshakeState::KeySent, PeerEvent::ReceivedKey) => InitiatorHandshakeState::KeyReceived,
                (InitiatorHandshakeState::KeyReceived, PeerEvent::SentAuth) => InitiatorHandshakeState::AuthSent,
                (InitiatorHandshakeState::AuthSent, PeerEvent::ReceivedAuth) => InitiatorHandshakeState::AuthReceived,
                _ => InitiatorHandshakeState::Failure({
                    proof {
                        reveal_strlit("unexpected peer handshake step");
                    }
                    failure_reason("unexpected peer handshake step")
                }),
            },
        }
    }

    /// Whether handling `evs` in order from this state ends in `Failure`.
    pub open spec fn fails_after(self, evs: Seq<PeerEvent>) -> bool
        decreases evs.len(),
    {
        if self.is_failure() {
            true
        } else if evs.len() == 0 {
            false
        } else {
            match self.step(evs[0]) {
                Some(n) => n.fails_after(evs.drop_first()),
                None => true,
            }
        }
    }

    /// The state reached by handling `evs` in order, where none fails.
    pub open spec fn reached(self, evs: Seq<PeerEvent>) -> InitiatorHandshakeState
        decreases evs.len(),
    {
        if evs.len() == 0 {
            self
        } else {
            match self.step(evs[0]) {
                Some(n) => n.reached(evs.drop_first()),
                None => self,
            }
        }
    }

    /// Handles `evs` in order.
    pub fn run(self, evs: &Vec<PeerEvent>) -> (r: InitiatorHandshakeState)
        ensures
            r.is_failure() == self.fails_after(evs@),
            !self.fails_after(evs@) ==> r == self.reached(evs@),
    {
        let mut s = self;
        let mut i: usize = 0;
        proof {
            assert(evs@.skip(0) =~= evs@);
        }
        while i < evs.len()
            invariant
                i <= evs.len(),
                self.fails_after(evs@) == s.fails_after(evs@.skip(i as int)),
                !self.fails_after(evs@) ==> self.reached(evs@) == s.reached(evs@.skip(i as int)),
            decreases evs.len() - i,
        {
            proof {
                assert(evs@.skip(i as int).drop_first() =~= evs@.skip(i + 1));
            }
            s = s.advance(evs[i]);
            i = i + 1;
        }
        proof {
            assert(evs@.skip(i as int).len() == 0);
        }
        s
    }
}

/// The responder handshake states.
#[derive(Debug, PartialEq, Eq, Clone)]
pub enum ResponderHandshakeState {
    New,
    TokenReceived,
    KeyReceived,
    KeySent,
    AuthReceived,
    AuthSent,
    Failure(String),
}

impl ResponderHandshakeState {
    pub open spec fn is_failure(&self) -> bool {
        self is Failure
    }

    /// Whether a `Failure` state carries a non-empty diagnostic.
    pub open spec fn has_reason(&self) -> bool {
        match self {
            ResponderHandshakeState::Failure(m) => m@.len() > 0,
            _ => true,
        }
    }

    /// Whether the peer handshake has completed on this side.
    pub open spec fn is_done(&self) -> bool {
        self is AuthSent
    }

    /// The state that `ev` leads to from this state, if `ev` is the step
    /// expected here.
    pub open spec fn step(&self, ev: PeerEvent) -> Option<ResponderHandshakeState> {
        match (self, ev) {
            (ResponderHandshakeState::New, PeerEvent::ReceivedToken) => Some(ResponderHandshakeState::TokenReceived),
            (ResponderHandshakeState::New, PeerEvent::ReceivedKey) => Some(ResponderHandshakeState::KeyReceived),
            (ResponderHandshakeState::TokenReceived, PeerEvent::ReceivedKey) => Some(ResponderHandshakeState::KeyReceived),
            (ResponderHandshakeState::KeyReceived, PeerEvent::SentKey) => Some(ResponderHandshakeState::KeySent),
            (ResponderHandshakeState::KeySent, PeerEvent::ReceivedAuth) => Some(ResponderHandshakeState::AuthReceived),
            (ResponderHandshakeState::AuthReceived, PeerEvent::SentAuth) => Some(ResponderHandshakeState::AuthSent),
            _ => None,
        }
    }

    /// The state after `ev`: the next state when `ev` is the step expected
    /// here, `Failure` otherwise. `Failure` is never left.
    pub fn advance(self, ev: PeerEvent) -> (r: ResponderHandshakeState)
        ensures
            self.is_failure() ==> r == self,
            !self.is_failure() && self.step(ev) is Some ==> r == self.step(ev)->0,
            !self.is_failure() && self.step(ev) is None ==> r.is_failure() && r.has_reason(),
    {
        match self {
            ResponderHandshakeState::Failure(reason) => ResponderHandshakeState::Failure(reason),
            _ => match (self, ev) {
                (ResponderHandshakeState::New, PeerEvent::ReceivedToken) => ResponderHandshakeState::TokenReceived,
                (ResponderHandshakeState::New, PeerEvent::ReceivedKey) => ResponderHandshakeState::KeyReceived,
                (ResponderHandshakeState::TokenReceived, PeerEvent::ReceivedKey) => ResponderHandshakeState::KeyReceived,
                (ResponderHandshakeState::KeyReceived, PeerEvent::SentKey) => ResponderHandshakeState::KeySent,
                (ResponderHandshakeState::KeySent, PeerEvent::ReceivedAuth) => ResponderHandshakeState::AuthReceived,
                (ResponderHandshakeState::AuthReceived, PeerEvent::SentAuth) => ResponderHandshakeState::AuthSent,
                _ => ResponderHandshakeState::Failure({
                    proof {
                        reveal_strlit("unexpected peer handshake step");
                    }
                    failure_reason("unexpected peer handshake step")
                }),
            },
        }
    }

    /// Whether handling `evs` in order from this state ends in `Failure`.
    pub open spec fn fails_after(self, evs: Seq<PeerEvent>) -> bool
        decreases evs.len(),
    {
        if self.is_failure() {
            true
        } else if evs.len() == 0 {
            false
        } else {
            match self.step(evs[0]) {
                Some(n) => n.fails_after(evs.drop_first()),
                None => true,
            }
        }
    }

    /// The state reached by handling `evs` in order, where none fails.
    pub open spec fn reached(self, evs: Seq<PeerEvent>) -> ResponderHandshakeState
        decreases evs.len(),
    {
        if evs.len() == 0 {
            self
        } else {
            match self.step(evs[0]) {
                Some(n) => n.reached(evs.drop_first()),
                None => self,
            }
        }
    }

    /// Handles `evs` in order.
    pub fn run(self, evs: &Vec<PeerEvent>) -> (r: ResponderHandshakeState)
        ensures
            r.is_failure() == self.fails_after(evs@),
            !self.fails_after(evs@) ==> r == self.reached(evs@),
    {
        let mut s = self;
        let mut i: usize = 0;
        proof {
            assert(evs@.skip(0) =~= evs@);
        }
        while i < evs.len()
            invariant
                i <= evs.len(),
                self.fails_after(evs@) == s.fails_after(evs@.skip(i as int)),
                !self.fails_after(evs@) ==> self.reached(evs@) == s.reached(evs@.skip(i as int)),
            decreases evs.len() - i,
        {
            proof {
                assert(evs@.skip(i as int).drop_first() =~= evs@.skip(i + 1));
            }
            s = s.advance(evs[i]);
            i = i + 1;
        }
        proof {
            assert(evs@.skip(i as int).len() == 0);
        }
        s
    }
}

/// The error returned when an operation is invoked in the wrong phase.
#[derive(Debug, PartialEq, Eq, Clone, Copy, Structural)]
pub enum StateError {
    /// The connection has not reached the `Task` phase.
    NotReady,
}

impl SignalingState {
    /// Position of the phase in the forward order of phases.
    pub open spec fn rank(self) -> nat {
        match self {
            SignalingState::ServerHandshake => 0,
            SignalingState::PeerHandshake => 1,
            SignalingState::Task => 2,
        }
    }

    /// The phase after the server handshake reached `server`: the peer
    /// handshake once it is `Done`, this phase otherwise.
    pub fn after_server(self, server: &ServerHandshakeState) -> (r: SignalingState)
        ensures
            self == SignalingState::ServerHandshake && *server is Done ==> r
                == SignalingState::PeerHandshake,
            !(self == SignalingState::ServerHandshake && *server is Done) ==> r == self,
            self.rank() <= r.rank() <= self.rank() + 1,
    {
        match (self, server) {
            (SignalingState::ServerHandshake, ServerHandshakeState::Done) => {
                SignalingState::PeerHandshake
            },
            _ => self,
        }
    }

    /// The phase after the initiator's peer handshake reached `peer`: the
    /// task phase once the handshake is done, this phase otherwise.
    pub fn after_initiator(self, peer: &InitiatorHandshakeState) -> (r: SignalingState)
        ensures
            self == SignalingState::PeerHandshake && peer.is_done() ==> r == SignalingState::Task,
            !(self == SignalingState::PeerHandshake && peer.is_done()) ==> r == self,
            self.rank() <= r.rank() <= self.rank() + 1,
    {
        match (self, peer) {
            (SignalingState::PeerHandshake, InitiatorHandshakeState::AuthReceived) => {
                SignalingState::Task
            },
            _ => self,
        }
    }

    /// The phase after the responder's peer handshake reached `peer`: the
    /// task phase once the handshake is done, this phase otherwise.
    pub fn after_responder(self, peer: &ResponderHandshakeState) -> (r: SignalingState)
        ensures
            self == SignalingState::PeerHandshake && peer.is_done() ==> r == SignalingState::Task,
            !(self == SignalingState::PeerHandshake && peer.is_done()) ==> r == self,
            self.rank() <= r.rank() <= self.rank() + 1,
    {
        match (self, peer) {
            (SignalingState::PeerHandshake, ResponderHandshakeState::AuthSent) => {
                SignalingState::Task
            },
            _ => self,
        }
    }

    /// Succeeds only in the `Task` phase, where task messages may be sent.
    pub fn require_task(self) -> (r: Result<(), StateError>)
        ensures
            r is Ok <==> self == SignalingState::Task,
            r is Err ==> r == Err::<(), StateError>(StateError::NotReady),
    {
        match self {
            SignalingState::Task => Ok(()),
            _ => Err(StateError::NotReady),
        }
    }
}

/// The initiator's first peer handshake step: a peer whose permanent public
/// key is known is identified by it, and the token is sent only on first
/// contact.
pub fn initiator_opening_step(peer_key_known: bool) -> (r: PeerEvent)
    ensures
        r == (if peer_key_known { PeerEvent::SentKey } else { PeerEvent::SentToken }),
{
    if peer_key_known {
        PeerEvent::SentKey
    } else {
        PeerEvent::SentToken
    }
}

/// The step that the responder expects first: the peer's key when the
/// initiator's permanent public key is known, the auth token otherwise.
pub fn responder_opening_step(peer_key_known: bool) -> (r: PeerEvent)
    ensures
        r == (if peer_key_known { PeerEvent::ReceivedKey } else { PeerEvent::ReceivedToken }),
{
    if peer_key_known {
        PeerEvent::ReceivedKey
    } else {
        PeerEvent::ReceivedToken
    }
}

/// A step out of the initiator's order ends its peer handshake in
/// `Failure`, and no later step brings it back.
pub proof fn lemma_initiator_out_of_order(
    s: InitiatorHandshakeState,
    ev: PeerEvent,
    rest: Seq<PeerEvent>,
)
    requires
        s.step(ev) is None,
    ensures
        s.fails_after(seq![ev] + rest),
{
}

/// A step out of the responder's order ends its peer handshake in
/// `Failure`, and no later step brings it back.
pub proof fn lemma_responder_out_of_order(
    s: ResponderHandshakeState,
    ev: PeerEvent,
    rest: Seq<PeerEvent>,
)
    requires
        s.step(ev) is None,
    ensures
        s.fails_after(seq![ev] + rest),
{
}

} // verus!
