use vstd::prelude::*;

verus! {

/// Length of a cookie in bytes.
pub const COOKIE_LEN: usize = 16;

/// Length of an encoded nonce in bytes.
pub const NONCE_LEN: usize = 24;

/// The largest combined sequence number: 16 bits of overflow counter above
/// 32 bits of sequence counter.
pub const MAX_CSN: u64 = 0xffff_ffff_ffff;

/// A 16-byte random anti-reflection value chosen by the sender.
pub type Cookie = [u8; 16];

/// A 24-byte value that identifies one message of one direction.
#[derive(Debug, PartialEq, Eq, Clone, Copy)]
pub struct Nonce {
    /// The sender's cookie, which scopes the session.
    pub cookie: Cookie,
    pub source: u8,
    pub destination: u8,
    pub overflow: u16,
    pub sequence: u32,
}

impl Nonce {
    /// The combined sequence number: overflow counter and sequence counter
    /// read as one 48-bit number.
    pub open spec fn csn(self) -> int {
        self.overflow as int * 0x1_0000_0000 + self.sequence as int
    }
}

/// An error raised by nonce and cookie validation.
#[derive(Debug, PartialEq, Eq, Clone, Copy, Structural)]
pub enum NonceError {
    /// The combined sequence number did not exceed the last one seen.
    SequenceNotIncreasing,
    /// The cookie differs from the one established for the partner.
    CookieMismatch,
    /// The partner used a cookie that this client generated.
    Reflection,
    /// The outgoing combined sequence number would wrap.
    Exhausted,
}

/// Whether two cookies hold the same bytes.
pub fn same_cookie(a: &Cookie, b: &Cookie) -> (r: bool)
    ensures
        r == (a@ == b@),
{
    let mut i: usize = 0;
    while i < COOKIE_LEN
        invariant
            i <= COOKIE_LEN,
            a@.len() == COOKIE_LEN,
            b@.len() == COOKIE_LEN,
            forall|j: int| 0 <= j < i ==> a@[j] == b@[j],
        decreases COOKIE_LEN - i,
    {
        if a[i] != b[i] {
            return false;
        }
        i = i + 1;
    }
    proof {
        assert(a@ =~= b@);
    }
    true
}

/// Nonce and cookie bookkeeping for one partner (the server or the peer).
#[derive(Debug, Clone)]
pub struct NonceTracker {
    /// The cookie this client uses towards the partner.
    pub local_cookie: Cookie,
    /// The partner's cookie, once its first message has been accepted.
    pub remote_cookie: Option<Cookie>,
    /// The combined sequence number of the last accepted incoming message.
    pub last_incoming: Option<u64>,
    /// Whether the partner has echoed the local cookie back.
    pub cookie_confirmed: bool,
    /// The combined sequence number of the next outgoing message.
    pub next_csn: u64,
}

impl NonceTracker {
    pub open spec fn wf(&self) -> bool {
        self.next_csn <= MAX_CSN + 1
    }

    /// A tracker for a new partner, with no incoming message seen yet.
    pub fn new(local_cookie: Cookie, initial_sequence: u32) -> (r: NonceTracker)
        ensures
            r.wf(),
            r.local_cookie == local_cookie,
            r.remote_cookie is None,
            r.last_incoming is None,
            !r.cookie_confirmed,
            r.next_csn == initial_sequence,
    {
        NonceTracker {
            local_cookie,
            remote_cookie: None,
            last_incoming: None,
            cookie_confirmed: false,
            next_csn: initial_sequence as u64,
        }
    }

    /// What validating the incoming nonce `n` yields.
    pub open spec fn incoming_outcome(&self, n: Nonce) -> Result<(), NonceError> {
        if n.cookie@ == self.local_cookie@ {
            Err(NonceError::Reflection)
        } else if self.remote_cookie is Some && self.remote_cookie->0@ != n.cookie@ {
            Err(NonceError::CookieMismatch)
        } else if self.last_incoming is Some && n.csn() <= self.last_incoming->0 {
            Err(NonceError::SequenceNotIncreasing)
        } else {
            Ok(())
        }
    }

    /// The tracker after accepting the incoming nonce `n`.
    pub open spec fn accepted(&self, n: Nonce) -> NonceTracker {
        NonceTracker {
            remote_cookie: Some(n.cookie),
            last_incoming: Some(n.csn() as u64),
            ..*self
        }
    }

    /// Validates an incoming nonce: it must not carry the local cookie, must
    /// carry the partner's cookie once that is known, and its combined
    /// sequence number must exceed the last one accepted. The first accepted
    /// nonce establishes the partner's cookie.
    pub fn validate_incoming(&mut self, n: &Nonce) -> (r: Result<(), NonceError>)
        requires
            old(self).wf(),
        ensures
            r == old(self).incoming_outcome(*n),
            r is Ok ==> *final(self) == old(self).accepted(*n),
            r is Err ==> *final(self) == *old(self),
    {
        if same_cookie(&n.cookie, &self.local_cookie) {
            return Err(NonceError::Reflection);
        }
        match &self.remote_cookie {
            Some(c) => {
                if !same_cookie(c, &n.cookie) {
                    return Err(NonceError::CookieMismatch);
                }
            },
            None => {},
        }
        let csn: u64 = n.overflow as u64 * 0x1_0000_0000u64 + n.sequence as u64;
        match self.last_incoming {
            Some(last) => {
                if csn <= last {
                    return Err(NonceError::SequenceNotIncreasing);
                }
            },
            None => {},
        }
        self.remote_cookie = Some(n.cookie);
        self.last_incoming = Some(csn);
        Ok(())
    }

    /// Accepts the partner's echo of the local cookie, once: a second echo,
    /// or one of another value, is a `CookieMismatch`.
    pub fn confirm_cookie(&mut self, echoed: &Cookie) -> (r: Result<(), NonceError>)
        ensures
            r is Ok <==> !old(self).cookie_confirmed && echoed@ == old(self).local_cookie@,
            r is Err ==> r == Err::<(), NonceError>(NonceError::CookieMismatch),
            r is Ok ==> *final(self) == (NonceTracker { cookie_confirmed: true, ..*old(self) }),
            r is Err ==> *final(self) == *old(self),
    {
        if self.cookie_confirmed || !same_cookie(echoed, &self.local_cookie) {
            return Err(NonceError::CookieMismatch);
        }
        self.cookie_confirmed = true;
        Ok(())
    }

    /// Whether `n` is the nonce that `next_outgoing` issues from this
    /// tracker for `source` and `destination`, leaving `next`.
    pub open spec fn issues(&self, source: u8, destination: u8, next: NonceTracker, n: Nonce) -> bool {
        &&& self.next_csn <= MAX_CSN
        &&& n.cookie == self.local_cookie
        &&& n.source == source
        &&& n.destination == destination
        &&& n.csn() == self.next_csn
        &&& next == (NonceTracker { next_csn: (self.next_csn + 1) as u64, ..*self })
    }

    /// The nonce of the next outgoing message from `source` to
    /// `destination`. Fails with `Exhausted` once the combined sequence
    /// number has reached its largest value.
    pub fn next_outgoing(&mut self, source: u8, destination: u8) -> (r: Result<Nonce, NonceError>)
        requires
            old(self).wf(),
        ensures
            final(self).wf(),
            r is Ok <==> old(self).next_csn <= MAX_CSN,
            r is Ok ==> old(self).issues(source, destination, *final(self), r->Ok_0),
            r is Err ==> r == Err::<Nonce, NonceError>(NonceError::Exhausted) && *final(self)
                == *old(self),
    {
        if self.next_csn > MAX_CSN {
            return Err(NonceError::Exhausted);
        }
        let c = self.next_csn;
        let overflow = (c / 0x1_0000_0000u64) as u16;
        let sequence = (c % 0x1_0000_0000u64) as u32;
        proof {
            assert(c == (c / 0x1_0000_0000u64) * 0x1_0000_0000u64 + c % 0x1_0000_0000u64)
                by (nonlinear_arith);
            assert(c / 0x1_0000_0000u64 <= 0xffff) by (nonlinear_arith)
                requires
                    c <= MAX_CSN,
            ;
        }
        let n = Nonce { cookie: self.local_cookie, source, destination, overflow, sequence };
        self.next_csn = c + 1;
        Ok(n)
    }
}

/// Nonces issued one after another for the same direction carry strictly
/// increasing combined sequence numbers.
pub proof fn lemma_outgoing_increasing(
    t0: NonceTracker,
    t1: NonceTracker,
    t2: NonceTracker,
    source: u8,
    destination: u8,
    n1: Nonce,
    n2: Nonce,
)
    requires
        t0.issues(source, destination, t1, n1),
        t1.issues(source, destination, t2, n2),
    ensures
        n1.csn() < n2.csn(),
        n1.cookie == n2.cookie,
{
}

/// Once a nonce has been accepted, a replayed nonce of the same session
/// whose combined sequence number is equal or lower is refused with
/// `SequenceNotIncreasing`.
pub proof fn lemma_replay_refused(t: NonceTracker, n: Nonce, replay: Nonce)
    requires
        t.incoming_outcome(n) is Ok,
        replay.cookie == n.cookie,
        replay.csn() <= n.csn(),
    ensures
        t.accepted(n).incoming_outcome(replay) == Err::<(), NonceError>(
            NonceError::SequenceNotIncreasing,
        ),
{
    assert(0 <= n.csn() < 0x1_0000_0000_0000);
}

/// The partner's first accepted cookie is the one it must use from then on:
/// a later nonce with another cookie is a `CookieMismatch`, unless it
/// carries the local cookie, which is a `Reflection` at any time.
pub proof fn lemma_cookie_established(t: NonceTracker, n: Nonce, later: Nonce)
    requires
        t.incoming_outcome(n) is Ok,
        later.cookie@ != n.cookie@,
    ensures
        later.cookie@ == t.local_cookie@ ==> t.accepted(n).incoming_outcome(later) == Err::<
            (),
            NonceError,
        >(NonceError::Reflection),
        later.cookie@ != t.local_cookie@ ==> t.accepted(n).incoming_outcome(later) == Err::<
            (),
            NonceError,
        >(NonceError::CookieMismatch),
{
}

/// A nonce that carries this client's own cookie is refused as a
/// `Reflection`, whatever state the tracker is in.
pub proof fn lemma_reflection_refused(t: NonceTracker, n: Nonce)
    requires
        n.cookie@ == t.local_cookie@,
    ensures
        t.incoming_outcome(n) == Err::<(), NonceError>(NonceError::Reflection),
{
}

} // verus!
