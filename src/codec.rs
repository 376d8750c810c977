use vstd::prelude::*;
use crate::crypto::{box_opened, box_sealed, CryptoError, KeyPair, TAG_LEN};
use crate::nonce::{Nonce, NonceError, NonceTracker, NONCE_LEN};

verus! {

/// The type of a signaling message, written as one tag byte in front of
/// its body.
#[derive(Debug, PartialEq, Eq, Clone, Copy, Structural)]
pub enum MessageType {
    ClientHello,
    ClientAuth,
    ServerHello,
    ServerAuth,
    Token,
    Key,
    Auth,
    Application,
}

/// The tag byte of each message type.
pub open spec fn tag_of(t: MessageType) -> u8 {
    match t {
        MessageType::ClientHello => 1,
        MessageType::ClientAuth => 2,
        MessageType::ServerHello => 3,
        MessageType::ServerAuth => 4,
        MessageType::Token => 5,
        MessageType::Key => 6,
        MessageType::Auth => 7,
        MessageType::Application => 8,
    }
}

/// Whether `b` is the tag of some message type.
pub open spec fn is_known_tag(b: u8) -> bool {
    1 <= b <= 8
}

/// Whether a body of `len` bytes fits the message type with tag `tag`: the
/// hello, token and key messages each carry one 32-byte public key, the
/// others a body of any length.
pub open spec fn body_fits(tag: u8, len: int) -> bool {
    tag == 1 || tag == 3 || tag == 5 || tag == 6 ==> len == 32
}

/// Whether the body of `e` fits its message type.
pub open spec fn well_formed(e: Envelope) -> bool {
    body_fits(tag_of(e.message_type), e.body@.len() as int)
}

/// Whether a body of `len` bytes fits the message type `t`.
pub fn body_fits_type(t: MessageType, len: usize) -> (r: bool)
    ensures
        r == body_fits(tag_of(t), len as int),
{
    match t {
        MessageType::ClientHello | MessageType::ServerHello | MessageType::Token
        | MessageType::Key => len == 32,
        _ => true,
    }
}

/// The tag byte of a message type.
pub fn message_tag(t: MessageType) -> (r: u8)
    ensures
        r == tag_of(t),
{
    match t {
        MessageType::ClientHello => 1,
        MessageType::ClientAuth => 2,
        MessageType::ServerHello => 3,
        MessageType::ServerAuth => 4,
        MessageType::Token => 5,
        MessageType::Key => 6,
        MessageType::Auth => 7,
        MessageType::Application => 8,
    }
}

/// The message type of a tag byte, if it names one.
pub fn message_type_of(b: u8) -> (r: Option<MessageType>)
    ensures
        r is Some <==> is_known_tag(b),
        r is Some ==> tag_of(r->0) == b,
{
    match b {
        1 => Some(MessageType::ClientHello),
        2 => Some(MessageType::ClientAuth),
        3 => Some(MessageType::ServerHello),
        4 => Some(MessageType::ServerAuth),
        5 => Some(MessageType::Token),
        6 => Some(MessageType::Key),
        7 => Some(MessageType::Auth),
        8 => Some(MessageType::Application),
        _ => None,
    }
}

/// An error raised while decoding a frame.
#[derive(Debug, PartialEq, Eq, Clone, Copy, Structural)]
pub enum CodecError {
    /// The frame is shorter than a nonce.
    Truncated,
    /// The payload's type tag names no message type.
    UnknownType,
    /// The payload holds no type tag.
    MalformedPayload,
}

/// A signaling message unit.
#[derive(Debug, Clone)]
pub struct Envelope {
    pub nonce: Nonce,
    pub message_type: MessageType,
    pub body: Vec<u8>,
}

/// The bytes of a 16-bit counter, most significant first.
pub open spec fn u16_bytes(v: u16) -> Seq<u8> {
    seq![(v >> 8u16) as u8, v as u8]
}

/// The bytes of a 32-bit counter, most significant first.
pub open spec fn u32_bytes(v: u32) -> Seq<u8> {
    seq![(v >> 24u32) as u8, (v >> 16u32) as u8, (v >> 8u32) as u8, v as u8]
}

/// The wire form of a nonce: cookie, source, destination, overflow
/// counter and sequence counter.
pub open spec fn nonce_bytes(n: Nonce) -> Seq<u8> {
    n.cookie@ + seq![n.source, n.destination] + u16_bytes(n.overflow) + u32_bytes(n.sequence)
}

/// The wire form of an envelope: its nonce, then the type tag, then the body.
pub open spec fn frame_bytes(e: Envelope) -> Seq<u8> {
    nonce_bytes(e.nonce) + seq![tag_of(e.message_type)] + e.body@
}

/// The error that decoding `b` yields, if any.
pub open spec fn frame_error(b: Seq<u8>) -> Option<CodecError> {
    if b.len() < NONCE_LEN {
        Some(CodecError::Truncated)
    } else if b.len() == NONCE_LEN {
        Some(CodecError::MalformedPayload)
    } else if !is_known_tag(b[NONCE_LEN as int]) {
        Some(CodecError::UnknownType)
    } else if !body_fits(b[NONCE_LEN as int], b.len() - NONCE_LEN - 1) {
        Some(CodecError::MalformedPayload)
    } else {
        None
    }
}

proof fn lemma_u16_bytes_injective(a: u16, b: u16)
    requires
        u16_bytes(a) == u16_bytes(b),
    ensures
        a == b,
{
    assert(u16_bytes(a)[0] == u16_bytes(b)[0]);
    assert(u16_bytes(a)[1] == u16_bytes(b)[1]);
    assert(((a >> 8u16) as u8 == (b >> 8u16) as u8 && a as u8 == b as u8) ==> a == b)
        by (bit_vector);
}

proof fn lemma_u32_bytes_injective(a: u32, b: u32)
    requires
        u32_bytes(a) == u32_bytes(b),
    ensures
        a == b,
{
    assert(u32_bytes(a)[0] == u32_bytes(b)[0]);
    assert(u32_bytes(a)[1] == u32_bytes(b)[1]);
    assert(u32_bytes(a)[2] == u32_bytes(b)[2]);
    assert(u32_bytes(a)[3] == u32_bytes(b)[3]);
    assert(((a >> 24u32) as u8 == (b >> 24u32) as u8 && (a >> 16u32) as u8 == (b >> 16u32) as u8
        && (a >> 8u32) as u8 == (b >> 8u32) as u8 && a as u8 == b as u8) ==> a == b)
        by (bit_vector);
}

proof fn lemma_nonce_bytes_injective(a: Nonce, b: Nonce)
    requires
        nonce_bytes(a) == nonce_bytes(b),
    ensures
        a == b,
{
    let x = nonce_bytes(a);
    let y = nonce_bytes(b);
    assert(a.cookie@ =~= x.subrange(0, 16));
    assert(b.cookie@ =~= y.subrange(0, 16));
    assert(a.cookie =~= b.cookie);
    assert(x[16] == y[16]);
    assert(x[17] == y[17]);
    assert(u16_bytes(a.overflow) =~= x.subrange(18, 20));
    assert(u16_bytes(b.overflow) =~= y.subrange(18, 20));
    lemma_u16_bytes_injective(a.overflow, b.overflow);
    assert(u32_bytes(a.sequence) =~= x.subrange(20, 24));
    assert(u32_bytes(b.sequence) =~= y.subrange(20, 24));
    lemma_u32_bytes_injective(a.sequence, b.sequence);
}

/// Every encoded well-formed envelope decodes, and to that envelope alone: two
/// envelopes with the same frame have the same nonce, type and body.
pub proof fn lemma_round_trip(e: Envelope, d: Envelope)
    requires
        well_formed(e),
    ensures
        frame_error(frame_bytes(e)) is None,
        frame_bytes(d) == frame_bytes(e) ==> d.nonce == e.nonce && d.message_type
            == e.message_type && d.body@ == e.body@,
{
    let x = frame_bytes(e);
    assert(x[NONCE_LEN as int] == tag_of(e.message_type));
    if frame_bytes(d) == x {
        let y = frame_bytes(d);
        assert(nonce_bytes(e.nonce) =~= x.subrange(0, 24));
        assert(nonce_bytes(d.nonce) =~= y.subrange(0, 24));
        lemma_nonce_bytes_injective(d.nonce, e.nonce);
        assert(y[24] == tag_of(d.message_type));
        assert(e.body@ =~= x.subrange(25, x.len() as int));
        assert(d.body@ =~= y.subrange(25, y.len() as int));
    }
}

/// Appends the wire form of `n` to `out`.
pub fn encode_nonce(n: &Nonce, out: &mut Vec<u8>)
    ensures
        final(out)@ == old(out)@ + nonce_bytes(*n),
{
    let ghost start = out@;
    let mut i: usize = 0;
    while i < 16
        invariant
            i <= 16,
            n.cookie@.len() == 16,
            out@ == start + n.cookie@.subrange(0, i as int),
        decreases 16 - i,
    {
        out.push(n.cookie[i]);
        i = i + 1;
        proof {
            assert(n.cookie@.subrange(0, i as int) =~= n.cookie@.subrange(0, i - 1).push(
                n.cookie@[i - 1],
            ));
        }
    }
    out.push(n.source);
    out.push(n.destination);
    out.push((n.overflow >> 8u16) as u8);
    out.push(n.overflow as u8);
    out.push((n.sequence >> 24u32) as u8);
    out.push((n.sequence >> 16u32) as u8);
    out.push((n.sequence >> 8u32) as u8);
    out.push(n.sequence as u8);
    proof {
        assert(n.cookie@.subrange(0, 16) =~= n.cookie@);
        assert(out@ =~= start + nonce_bytes(*n));
    }
}

/// Encodes an envelope as a frame: nonce, type tag, body.
pub fn encode(e: &Envelope) -> (r: Vec<u8>)
    ensures
        r@ == frame_bytes(*e),
{
    let mut out: Vec<u8> = Vec::new();
    encode_nonce(&e.nonce, &mut out);
    out.push(message_tag(e.message_type));
    let ghost head = out@;
    let mut i: usize = 0;
    while i < e.body.len()
        invariant
            i <= e.body@.len(),
            out@ == head + e.body@.subrange(0, i as int),
        decreases e.body@.len() - i,
    {
        out.push(e.body[i]);
        i = i + 1;
        proof {
            assert(e.body@.subrange(0, i as int) =~= e.body@.subrange(0, i - 1).push(
                e.body@[i - 1],
            ));
        }
    }
    proof {
        assert(e.body@.subrange(0, i as int) =~= e.body@);
        assert(out@ =~= frame_bytes(*e));
    }
    out
}

/// Reads a nonce from the first bytes of `b`.
pub fn decode_nonce(b: &[u8]) -> (r: Nonce)
    requires
        b@.len() >= NONCE_LEN,
    ensures
        nonce_bytes(r) == b@.subrange(0, NONCE_LEN as int),
{
    let mut cookie: [u8; 16] = [0u8; 16];
    let mut i: usize = 0;
    while i < 16
        invariant
            i <= 16,
            b@.len() >= NONCE_LEN,
            cookie@.len() == 16,
            forall|j: int| 0 <= j < i ==> cookie@[j] == b@[j],
        decreases 16 - i,
    {
        cookie[i] = b[i];
        i = i + 1;
    }
    let (o0, o1) = (b[18], b[19]);
    let (s0, s1, s2, s3) = (b[20], b[21], b[22], b[23]);
    let overflow: u16 = (o0 as u16) << 8u16 | o1 as u16;
    let sequence: u32 = (s0 as u32) << 24u32 | (s1 as u32) << 16u32 | (s2 as u32) << 8u32
        | s3 as u32;
    proof {
        assert(((((o0 as u16) << 8u16 | o1 as u16) >> 8u16) as u8 == o0) && (((o0 as u16) << 8u16
            | o1 as u16) as u8 == o1)) by (bit_vector);
        assert({
            let v = (s0 as u32) << 24u32 | (s1 as u32) << 16u32 | (s2 as u32) << 8u32 | s3 as u32;
            (v >> 24u32) as u8 == s0 && (v >> 16u32) as u8 == s1 && (v >> 8u32) as u8 == s2
                && v as u8 == s3
        }) by (bit_vector);
    }
    let n = Nonce { cookie, source: b[16], destination: b[17], overflow, sequence };
    proof {
        assert(nonce_bytes(n) =~= b@.subrange(0, NONCE_LEN as int));
    }
    n
}

/// Decodes a frame into an envelope. Fails with `Truncated` when the frame
/// is shorter than a nonce, `MalformedPayload` when no type tag follows the
/// nonce or the body does not fit the type, and `UnknownType` when the tag
/// names no message type.
pub fn decode(frame: &[u8]) -> (r: Result<Envelope, CodecError>)
    ensures
        r is Err <==> frame_error(frame@) is Some,
        r is Err ==> r->Err_0 == frame_error(frame@)->0,
        r is Ok ==> frame_bytes(r->Ok_0) == frame@,
{
    if frame.len() < NONCE_LEN {
        return Err(CodecError::Truncated);
    }
    if frame.len() == NONCE_LEN {
        return Err(CodecError::MalformedPayload);
    }
    let message_type = match message_type_of(frame[NONCE_LEN]) {
        Some(t) => t,
        None => {
            return Err(CodecError::UnknownType);
        },
    };
    if !body_fits_type(message_type, frame.len() - NONCE_LEN - 1) {
        return Err(CodecError::MalformedPayload);
    }
    let nonce = decode_nonce(frame);
    let mut body: Vec<u8> = Vec::new();
    let mut i: usize = NONCE_LEN + 1;
    while i < frame.len()
        invariant
            NONCE_LEN + 1 <= i <= frame@.len(),
            body@ == frame@.subrange(NONCE_LEN + 1, i as int),
        decreases frame@.len() - i,
    {
        body.push(frame[i]);
        i = i + 1;
        proof {
            assert(frame@.subrange(NONCE_LEN + 1, i as int) =~= frame@.subrange(
                NONCE_LEN + 1,
                i - 1,
            ).push(frame@[i - 1]));
        }
    }
    let e = Envelope { nonce, message_type, body };
    proof {
        assert(frame_bytes(e) =~= frame@);
    }
    Ok(e)
}

/// The nonce that the first bytes of `b` encode.
pub open spec fn frame_nonce(b: Seq<u8>) -> Nonce {
    choose|n: Nonce| nonce_bytes(n) == b.subrange(0, NONCE_LEN as int)
}

/// An error raised while receiving a frame.
#[derive(Debug, PartialEq, Eq, Clone, Copy, Structural)]
pub enum ReceiveError {
    Codec(CodecError),
    Crypto(CryptoError),
    Nonce(NonceError),
}

/// What receiving the plain frame `b` with tracker `t` gives: the result
/// `r` and the tracker `t2` after it.
pub open spec fn receive_outcome(
    t: NonceTracker,
    b: Seq<u8>,
    r: Result<Envelope, ReceiveError>,
    t2: NonceTracker,
) -> bool {
    if b.len() < NONCE_LEN {
        r == Err::<Envelope, ReceiveError>(ReceiveError::Codec(CodecError::Truncated)) && t2 == t
    } else if t.incoming_outcome(frame_nonce(b)) is Err {
        r == Err::<Envelope, ReceiveError>(
            ReceiveError::Nonce(t.incoming_outcome(frame_nonce(b))->Err_0),
        ) && t2 == t
    } else {
        t2 == t.accepted(frame_nonce(b)) && match frame_error(b) {
            Some(e) => r == Err::<Envelope, ReceiveError>(ReceiveError::Codec(e)),
            None => r is Ok && frame_bytes(r->Ok_0) == b,
        }
    }
}

/// Receives a frame from the partner that `tracker` follows: the nonce is
/// read first (`Truncated` when the frame is too short for one), then
/// validated by the tracker, then the typed payload is parsed.
pub fn receive(frame: &[u8], tracker: &mut NonceTracker) -> (r: Result<Envelope, ReceiveError>)
    requires
        old(tracker).wf(),
    ensures
        receive_outcome(*old(tracker), frame@, r, *final(tracker)),
{
    if frame.len() < NONCE_LEN {
        return Err(ReceiveError::Codec(CodecError::Truncated));
    }
    let n = decode_nonce(frame);
    proof {
        let c = frame_nonce(frame@);
        assert(nonce_bytes(c) == frame@.subrange(0, NONCE_LEN as int));
        lemma_nonce_bytes_injective(c, n);
    }
    match tracker.validate_incoming(&n) {
        Ok(()) => {},
        Err(e) => {
            return Err(ReceiveError::Nonce(e));
        },
    }
    match decode(frame) {
        Ok(e) => Ok(e),
        Err(e) => Err(ReceiveError::Codec(e)),
    }
}

/// The bytes of `b` from `from` up to `to`.
fn copy_range(b: &[u8], from: usize, to: usize) -> (r: Vec<u8>)
    requires
        from <= to <= b@.len(),
    ensures
        r@ == b@.subrange(from as int, to as int),
{
    let mut out: Vec<u8> = Vec::new();
    let mut i: usize = from;
    while i < to
        invariant
            from <= i <= to,
            to <= b@.len(),
            out@ == b@.subrange(from as int, i as int),
        decreases to - i,
    {
        out.push(b[i]);
        i = i + 1;
        proof {
            assert(b@.subrange(from as int, i as int) =~= b@.subrange(from as int, i - 1).push(
                b@[i - 1],
            ));
        }
    }
    out
}

/// Appends the bytes of `b` to `out`.
fn append_bytes(out: &mut Vec<u8>, b: &[u8])
    ensures
        final(out)@ == old(out)@ + b@,
{
    let ghost start = out@;
    let mut i: usize = 0;
    while i < b.len()
        invariant
            i <= b@.len(),
            out@ == start + b@.subrange(0, i as int),
        decreases b@.len() - i,
    {
        out.push(b[i]);
        i = i + 1;
        proof {
            assert(b@.subrange(0, i as int) =~= b@.subrange(0, i - 1).push(b@[i - 1]));
        }
    }
    proof {
        assert(b@.subrange(0, i as int) =~= b@);
    }
}

/// Whether receiving got as far as accepting the frame's nonce: it did
/// unless the frame was truncated, could not be opened, or its nonce was
/// refused.
pub open spec fn nonce_accepted(r: Result<Envelope, ReceiveError>) -> bool {
    match r {
        Ok(_) => true,
        Err(ReceiveError::Codec(CodecError::Truncated)) => false,
        Err(ReceiveError::Codec(_)) => true,
        Err(_) => false,
    }
}

/// The sealed frame of `e` from the holder of `secret` to the holder of
/// `peer_public`: the nonce in the clear, then the type tag and body sealed
/// under it.
pub open spec fn sealed_frame(e: Envelope, secret: Seq<u8>, peer_public: Seq<u8>) -> Seq<u8> {
    nonce_bytes(e.nonce) + box_sealed(
        peer_public,
        secret,
        nonce_bytes(e.nonce),
        seq![tag_of(e.message_type)] + e.body@,
    )
}

/// Encodes an envelope as a sealed frame for the holder of `peer_public`.
pub fn seal_frame(e: &Envelope, keys: &KeyPair, peer_public: &[u8; 32]) -> (r: Vec<u8>)
    ensures
        r@ == sealed_frame(*e, keys.secret_view(), peer_public@),
        r@.len() == NONCE_LEN + 1 + e.body@.len() + TAG_LEN,
{
    let mut head: Vec<u8> = Vec::new();
    encode_nonce(&e.nonce, &mut head);
    let mut payload: Vec<u8> = Vec::new();
    payload.push(message_tag(e.message_type));
    append_bytes(&mut payload, e.body.as_slice());
    proof {
        assert(payload@ =~= seq![tag_of(e.message_type)] + e.body@);
        assert(head@ =~= nonce_bytes(e.nonce));
    }
    let cipher = keys.seal(peer_public, head.as_slice(), payload.as_slice());
    append_bytes(&mut head, cipher.as_slice());
    head
}

/// What opening the sealed frame `b` from the holder of `peer_public`, with
/// the key pair whose secret is `secret` and tracker `t`, gives: the result
/// `r` and the tracker `t2` after it.
pub open spec fn open_outcome(
    t: NonceTracker,
    secret: Seq<u8>,
    peer_public: Seq<u8>,
    b: Seq<u8>,
    r: Result<Envelope, ReceiveError>,
    t2: NonceTracker,
) -> bool {
    if b.len() < NONCE_LEN {
        r == Err::<Envelope, ReceiveError>(ReceiveError::Codec(CodecError::Truncated)) && t2 == t
    } else {
        let head = b.subrange(0, NONCE_LEN as int);
        match box_opened(peer_public, secret, head, b.skip(NONCE_LEN as int)) {
            None => r == Err::<Envelope, ReceiveError>(
                ReceiveError::Crypto(CryptoError::DecryptionFailed),
            ) && t2 == t,
            Some(p) => receive_outcome(t, head + p, r, t2),
        }
    }
}

/// Receives a sealed frame from the holder of `peer_public`, the partner
/// that `tracker` follows: the nonce is read first (`Truncated` when the
/// frame is too short for one), then the rest is opened, then the nonce is
/// validated by the tracker, then the typed payload is parsed.
pub fn open_frame(
    frame: &[u8],
    tracker: &mut NonceTracker,
    keys: &KeyPair,
    peer_public: &[u8; 32],
) -> (r: Result<Envelope, ReceiveError>)
    requires
        old(tracker).wf(),
    ensures
        final(tracker).wf(),
        open_outcome(*old(tracker), keys.secret_view(), peer_public@, frame@, r, *final(tracker)),
        NONCE_LEN <= frame@.len() < NONCE_LEN + TAG_LEN ==> r == Err::<Envelope, ReceiveError>(
            ReceiveError::Crypto(CryptoError::DecryptionFailed),
        ),
{
    if frame.len() < NONCE_LEN {
        return Err(ReceiveError::Codec(CodecError::Truncated));
    }
    let mut plain_frame = copy_range(frame, 0, NONCE_LEN);
    let cipher = copy_range(frame, NONCE_LEN, frame.len());
    proof {
        assert(cipher@ =~= frame@.skip(NONCE_LEN as int));
    }
    let plain = match keys.open(peer_public, plain_frame.as_slice(), cipher.as_slice()) {
        Ok(p) => p,
        Err(x) => {
            return Err(ReceiveError::Crypto(x));
        },
    };
    append_bytes(&mut plain_frame, plain.as_slice());
    receive(plain_frame.as_slice(), tracker)
}

/// A sealed frame that opens to what was sealed gives back the envelope:
/// the same nonce, type and body, once the tracker accepts the nonce.
pub proof fn lemma_sealed_round_trip(
    e: Envelope,
    secret: Seq<u8>,
    peer_public: Seq<u8>,
    my_secret: Seq<u8>,
    sender_public: Seq<u8>,
    t: NonceTracker,
    r: Result<Envelope, ReceiveError>,
    t2: NonceTracker,
)
    requires
        well_formed(e),
        box_sealed(
            peer_public,
            secret,
            nonce_bytes(e.nonce),
            seq![tag_of(e.message_type)] + e.body@,
        ).len() == 1 + e.body@.len() + TAG_LEN,
        box_opened(
            sender_public,
            my_secret,
            nonce_bytes(e.nonce),
            box_sealed(
                peer_public,
                secret,
                nonce_bytes(e.nonce),
                seq![tag_of(e.message_type)] + e.body@,
            ),
        ) == Some(seq![tag_of(e.message_type)] + e.body@),
        t.incoming_outcome(e.nonce) is Ok,
        open_outcome(t, my_secret, sender_public, sealed_frame(e, secret, peer_public), r, t2),
    ensures
        r is Ok,
        r->Ok_0.nonce == e.nonce,
        r->Ok_0.message_type == e.message_type,
        r->Ok_0.body@ == e.body@,
        t2 == t.accepted(e.nonce),
{
    let b = sealed_frame(e, secret, peer_public);
    let nb = nonce_bytes(e.nonce);
    assert(nb.len() == NONCE_LEN);
    assert(b.subrange(0, NONCE_LEN as int) =~= nb);
    assert(b.skip(NONCE_LEN as int) =~= box_sealed(
        peer_public,
        secret,
        nb,
        seq![tag_of(e.message_type)] + e.body@,
    ));
    let pf = nb + (seq![tag_of(e.message_type)] + e.body@);
    assert(pf =~= frame_bytes(e));
    assert(pf.subrange(0, NONCE_LEN as int) =~= nonce_bytes(e.nonce));
    assert(nonce_bytes(frame_nonce(pf)) == pf.subrange(0, NONCE_LEN as int));
    lemma_nonce_bytes_injective(frame_nonce(pf), e.nonce);
    lemma_round_trip(e, e);
    if r is Ok {
        lemma_round_trip(e, r->Ok_0);
    }
}

} // verus!
