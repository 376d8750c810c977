use vstd::prelude::*;
use crypto_box::aead::Aead;
use crypto_secretbox::KeyInit;

verus! {

/// Length of a public or secret key in bytes.
pub const KEY_LEN: usize = 32;

/// Length of the authentication tag that sealing adds to a payload.
pub const TAG_LEN: usize = 16;

#[verifier::external_type_specification]
#[verifier::external_body]
pub struct ExAeadError(crypto_box::aead::Error);

/// An error of the crypto primitives.
#[derive(Debug, PartialEq, Eq, Clone, Copy, Structural)]
pub enum CryptoError {
    /// A key was not exactly `KEY_LEN` bytes long.
    BadKeyLength,
    /// The ciphertext was truncated or its authentication tag did not match.
    DecryptionFailed,
}

/// The X25519 public key of a secret key.
pub uninterp spec fn public_of(secret: Seq<u8>) -> Seq<u8>;

/// The crypto box (X25519, then XSalsa20-Poly1305) that the holder of
/// `secret` seals for the holder of `peer_public`.
pub uninterp spec fn box_sealed(
    peer_public: Seq<u8>,
    secret: Seq<u8>,
    nonce: Seq<u8>,
    plain: Seq<u8>,
) -> Seq<u8>;

/// The payload of a crypto box that the holder of `peer_public` sealed for
/// the holder of `secret`, if the box authenticates.
pub uninterp spec fn box_opened(
    peer_public: Seq<u8>,
    secret: Seq<u8>,
    nonce: Seq<u8>,
    cipher: Seq<u8>,
) -> Option<Seq<u8>>;

/// The XSalsa20-Poly1305 secret box of `plain` under `key`.
pub uninterp spec fn secretbox_sealed(key: Seq<u8>, nonce: Seq<u8>, plain: Seq<u8>) -> Seq<u8>;

/// The payload of an XSalsa20-Poly1305 secret box under `key`, if it
/// authenticates.
pub uninterp spec fn secretbox_opened(key: Seq<u8>, nonce: Seq<u8>, cipher: Seq<u8>) -> Option<
    Seq<u8>,
>;

/// Relies on `crypto_box::SecretKey::generate` with the operating system's
/// random number generator: the bytes of a fresh random secret key.
#[verifier::external_body]
fn generate_secret_key() -> (r: [u8; 32]) {
    crypto_box::SecretKey::generate(&mut crypto_box::aead::OsRng).to_bytes()
}

/// Relies on `crypto_box::SecretKey::public_key`: the public key that
/// belongs to the secret key, a function of its bytes.
#[verifier::external_body]
fn public_key_bytes(secret: &[u8; 32]) -> (r: [u8; 32])
    ensures
        r@ == public_of(secret@),
{
    crypto_box::SecretKey::from_bytes(*secret).public_key().to_bytes()
}

/// Relies on `crypto_box::SalsaBox::encrypt`: with no associated data into
/// a `Vec` it always succeeds, and the box is the payload plus a 16-byte tag.
#[verifier::external_body]
fn box_encrypt(
    peer_public: &[u8; 32],
    secret: &[u8; 32],
    nonce: &[u8],
    plain: &[u8],
) -> (r: Result<Vec<u8>, crypto_box::aead::Error>)
    requires
        nonce@.len() == 24,
    ensures
        r is Ok,
        r->Ok_0@ == box_sealed(peer_public@, secret@, nonce@, plain@),
        r->Ok_0@.len() == plain@.len() + TAG_LEN,
{
    let public = crypto_box::PublicKey::from_bytes(*peer_public);
    let secret = crypto_box::SecretKey::from_bytes(*secret);
    crypto_box::SalsaBox::new(&public, &secret).encrypt(crypto_box::Nonce::from_slice(nonce), plain)
}

/// Relies on `crypto_box::SalsaBox::decrypt`: fails on a ciphertext shorter
/// than the 16-byte tag or one that does not authenticate, and otherwise
/// returns the payload without the tag.
#[verifier::external_body]
fn box_decrypt(
    peer_public: &[u8; 32],
    secret: &[u8; 32],
    nonce: &[u8],
    cipher: &[u8],
) -> (r: Result<Vec<u8>, crypto_box::aead::Error>)
    requires
        nonce@.len() == 24,
    ensures
        r is Ok <==> box_opened(peer_public@, secret@, nonce@, cipher@) is Some,
        r is Ok ==> r->Ok_0@ == box_opened(peer_public@, secret@, nonce@, cipher@)->0,
        cipher@.len() < TAG_LEN ==> r is Err,
        r is Ok ==> r->Ok_0@.len() + TAG_LEN == cipher@.len(),
{
    let public = crypto_box::PublicKey::from_bytes(*peer_public);
    let secret = crypto_box::SecretKey::from_bytes(*secret);
    crypto_box::SalsaBox::new(&public, &secret).decrypt(crypto_box::Nonce::from_slice(nonce), cipher)
}

/// Overwrites the key bytes with zeros.
fn wipe(key: &mut [u8; 32])
    ensures
        forall|i: int| 0 <= i < KEY_LEN ==> final(key)@[i] == 0,
    opens_invariants none
    no_unwind
{
    let mut i: usize = 0;
    while i < KEY_LEN
        invariant
            i <= KEY_LEN,
            key@.len() == KEY_LEN,
            forall|j: int| 0 <= j < i ==> key@[j] == 0,
        decreases KEY_LEN - i,
    {
        key[i] = 0;
        i = i + 1;
    }
}

/// A key from a byte slice, which must hold exactly `KEY_LEN` bytes.
pub fn key_from_slice(b: &[u8]) -> (r: Result<[u8; 32], CryptoError>)
    ensures
        r is Ok <==> b@.len() == KEY_LEN,
        r is Ok ==> r->Ok_0@ == b@,
        r is Err ==> r->Err_0 == CryptoError::BadKeyLength,
{
    if b.len() != KEY_LEN {
        return Err(CryptoError::BadKeyLength);
    }
    let mut k: [u8; 32] = [0u8; 32];
    let mut i: usize = 0;
    while i < KEY_LEN
        invariant
            i <= KEY_LEN,
            b@.len() == KEY_LEN,
            k@.len() == KEY_LEN,
            forall|j: int| 0 <= j < i ==> k@[j] == b@[j],
        decreases KEY_LEN - i,
    {
        k[i] = b[i];
        i = i + 1;
    }
    proof {
        assert(k@ =~= b@);
    }
    Ok(k)
}

/// An asymmetric identity: a secret key, which stays inside this value,
/// and its public key.
pub struct KeyPair {
    secret: [u8; 32],
    public: [u8; 32],
}

impl KeyPair {
    /// The secret key's bytes.
    pub closed spec fn secret_view(&self) -> Seq<u8> {
        self.secret@
    }

    /// The public key.
    pub closed spec fn public_view(&self) -> [u8; 32] {
        self.public
    }

    /// A fresh random key pair.
    pub fn new() -> (r: KeyPair)
        ensures
            r.public_view()@ == public_of(r.secret_view()),
    {
        KeyPair::from_secret_bytes(generate_secret_key())
    }

    /// The key pair of a known secret key.
    pub fn from_secret_bytes(bytes: [u8; 32]) -> (r: KeyPair)
        ensures
            r.secret_view() == bytes@,
            r.public_view()@ == public_of(bytes@),
    {
        let public = public_key_bytes(&bytes);
        KeyPair { secret: bytes, public }
    }

    /// The public key.
    pub fn public_key(&self) -> (r: [u8; 32])
        ensures
            r == self.public_view(),
    {
        self.public
    }

    /// Seals `plain` for the holder of `peer_public` under the 24-byte
    /// `nonce`: the payload encrypted and preceded by its 16-byte
    /// authentication tag.
    pub fn seal(&self, peer_public: &[u8; 32], nonce: &[u8], plain: &[u8]) -> (r: Vec<u8>)
        requires
            nonce@.len() == 24,
        ensures
            r@ == box_sealed(peer_public@, self.secret_view(), nonce@, plain@),
            r@.len() == plain@.len() + TAG_LEN,
    {
        match box_encrypt(peer_public, &self.secret, nonce, plain) {
            Ok(c) => c,
            Err(_) => Vec::new(),
        }
    }

    /// Opens a ciphertext that the holder of `peer_public` sealed for this
    /// key pair under `nonce`. A ciphertext shorter than the tag, or one
    /// whose tag does not match, is a `DecryptionFailed`.
    pub fn open(&self, peer_public: &[u8; 32], nonce: &[u8], cipher: &[u8]) -> (r: Result<
        Vec<u8>,
        CryptoError,
    >)
        requires
            nonce@.len() == 24,
        ensures
            match box_opened(peer_public@, self.secret_view(), nonce@, cipher@) {
                Some(p) => r is Ok && r->Ok_0@ == p,
                None => r == Err::<Vec<u8>, CryptoError>(CryptoError::DecryptionFailed),
            },
            cipher@.len() < TAG_LEN ==> r == Err::<Vec<u8>, CryptoError>(
                CryptoError::DecryptionFailed,
            ),
            r is Ok ==> r->Ok_0@.len() + TAG_LEN == cipher@.len(),
    {
        match box_decrypt(peer_public, &self.secret, nonce, cipher) {
            Ok(p) => Ok(p),
            Err(_) => Err(CryptoError::DecryptionFailed),
        }
    }
}

impl Drop for KeyPair {
    /// The secret key is zeroed when the key pair goes away.
    fn drop(&mut self)
        opens_invariants none
        no_unwind
    {
        wipe(&mut self.secret);
    }
}

/// Relies on `crypto_secretbox::XSalsa20Poly1305::generate_key` with the
/// operating system's random number generator: a fresh random key.
#[verifier::external_body]
fn generate_secretbox_key() -> (r: [u8; 32]) {
    crypto_secretbox::XSalsa20Poly1305::generate_key(&mut crypto_secretbox::aead::OsRng).into()
}

/// Relies on `crypto_secretbox::XSalsa20Poly1305::encrypt`: with no
/// associated data into a `Vec` it always succeeds, and the box is the
/// payload plus a 16-byte tag.
#[verifier::external_body]
fn secretbox_encrypt(key: &[u8; 32], nonce: &[u8], plain: &[u8]) -> (r: Result<
    Vec<u8>,
    crypto_box::aead::Error,
>)
    requires
        nonce@.len() == 24,
    ensures
        r is Ok,
        r->Ok_0@ == secretbox_sealed(key@, nonce@, plain@),
        r->Ok_0@.len() == plain@.len() + TAG_LEN,
{
    let cipher = crypto_secretbox::XSalsa20Poly1305::new(key.into());
    cipher.encrypt(crypto_secretbox::Nonce::from_slice(nonce), plain)
}

/// Relies on `crypto_secretbox::XSalsa20Poly1305::decrypt`: fails on a
/// ciphertext shorter than the 16-byte tag or one that does not
/// authenticate, and otherwise returns the payload without the tag.
#[verifier::external_body]
fn secretbox_decrypt(key: &[u8; 32], nonce: &[u8], cipher: &[u8]) -> (r: Result<
    Vec<u8>,
    crypto_box::aead::Error,
>)
    requires
        nonce@.len() == 24,
    ensures
        r is Ok <==> secretbox_opened(key@, nonce@, cipher@) is Some,
        r is Ok ==> r->Ok_0@ == secretbox_opened(key@, nonce@, cipher@)->0,
        cipher@.len() < TAG_LEN ==> r is Err,
        r is Ok ==> r->Ok_0@.len() + TAG_LEN == cipher@.len(),
{
    let c = crypto_secretbox::XSalsa20Poly1305::new(key.into());
    c.decrypt(crypto_secretbox::Nonce::from_slice(nonce), cipher)
}

/// An error of the one-time auth token.
#[derive(Debug, PartialEq, Eq, Clone, Copy, Structural)]
pub enum TokenError {
    /// The token already authenticated a peer.
    AlreadyUsed,
    /// The ciphertext was truncated or its authentication tag did not match.
    DecryptionFailed,
}

/// A one-time shared secret through which a responder proves that it knows
/// the initiator: a 32-byte symmetric key that authenticates at most one
/// token message.
pub struct AuthToken {
    key: [u8; 32],
    used: bool,
}

impl AuthToken {
    pub closed spec fn key_view(&self) -> [u8; 32] {
        self.key
    }

    /// Whether the token has already authenticated a token message.
    pub closed spec fn is_used(&self) -> bool {
        self.used
    }

    /// A fresh random token.
    pub fn new() -> (r: AuthToken)
        ensures
            !r.is_used(),
    {
        AuthToken { key: generate_secretbox_key(), used: false }
    }

    /// The token with the given key, as handed over out of band.
    pub fn from_bytes(key: [u8; 32]) -> (r: AuthToken)
        ensures
            !r.is_used(),
            r.key_view() == key,
    {
        AuthToken { key, used: false }
    }

    /// The key, to be handed to the responder out of band.
    pub fn to_bytes(&self) -> (r: [u8; 32])
        ensures
            r == self.key_view(),
    {
        self.key
    }

    /// Seals the token message under `nonce`.
    pub fn seal(&self, nonce: &[u8], plain: &[u8]) -> (r: Vec<u8>)
        requires
            nonce@.len() == 24,
        ensures
            r@ == secretbox_sealed(self.key_view()@, nonce@, plain@),
            r@.len() == plain@.len() + TAG_LEN,
    {
        match secretbox_encrypt(&self.key, nonce, plain) {
            Ok(c) => c,
            Err(_) => Vec::new(),
        }
    }

    /// Opens a token message. The token is spent by the first message it
    /// opens: every later call fails with `AlreadyUsed`.
    pub fn open(&mut self, nonce: &[u8], cipher: &[u8]) -> (r: Result<Vec<u8>, TokenError>)
        requires
            nonce@.len() == 24,
        ensures
            final(self).key_view() == old(self).key_view(),
            old(self).is_used() ==> r == Err::<Vec<u8>, TokenError>(TokenError::AlreadyUsed),
            !old(self).is_used() ==> match secretbox_opened(old(self).key_view()@, nonce@, cipher@) {
                Some(p) => r is Ok && r->Ok_0@ == p,
                None => r == Err::<Vec<u8>, TokenError>(TokenError::DecryptionFailed),
            },
            !old(self).is_used() && cipher@.len() < TAG_LEN ==> r == Err::<Vec<u8>, TokenError>(
                TokenError::DecryptionFailed,
            ),
            r is Ok ==> r->Ok_0@.len() + TAG_LEN == cipher@.len(),
            final(self).is_used() == (old(self).is_used() || r is Ok),
    {
        if self.used {
            return Err(TokenError::AlreadyUsed);
        }
        match secretbox_decrypt(&self.key, nonce, cipher) {
            Ok(p) => {
                self.used = true;
                Ok(p)
            },
            Err(_) => Err(TokenError::DecryptionFailed),
        }
    }
}

impl Drop for AuthToken {
    /// The key is zeroed when the token goes away.
    fn drop(&mut self)
        opens_invariants none
        no_unwind
    {
        wipe(&mut self.key);
    }
}

} // verus!
