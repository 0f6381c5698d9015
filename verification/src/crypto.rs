//! Keys, signatures, certificates, peer identities and block/message hashes.
//!
//! Ed25519 signing and peer identities come from `libp2p-identity`, hashing from
//! `blake2` (BLAKE2b with a 256 bit output) and the textual form of hashes and
//! peer ids from `bs58`.  Every value that the protocol logic reads is held here as
//! plain bytes.

use vstd::prelude::*;
use crate::bytes::{bytes_eq, clone_bytes};

verus! {

// ---------------------------------------------------------------------------
// Names for what the outside functions compute.
// ---------------------------------------------------------------------------

/// The Ed25519 public key (compressed point, 32 bytes) that belongs to a 32 byte secret key.
pub uninterp spec fn ed25519_public_of(secret: Seq<u8>) -> Seq<u8>;

/// The Ed25519 signature (64 bytes) of `msg` under the secret key `secret`.
pub uninterp spec fn ed25519_signature(secret: Seq<u8>, msg: Seq<u8>) -> Seq<u8>;

/// Whether `sig` is a valid Ed25519 signature of `msg` under the encoded public key `public`.
pub uninterp spec fn ed25519_verifies(public: Seq<u8>, msg: Seq<u8>, sig: Seq<u8>) -> bool;

/// The bytes of the libp2p peer id derived from an encoded Ed25519 public key, if the
/// bytes decode to a public key.
pub uninterp spec fn libp2p_peer_id_of(public: Seq<u8>) -> Option<Seq<u8>>;

/// BLAKE2b-256 digest of `data`.
pub uninterp spec fn blake2b256(data: Seq<u8>) -> Seq<u8>;

/// Base58 (Bitcoin alphabet) text of `data`.
pub uninterp spec fn base58_text(data: Seq<u8>) -> Seq<char>;

/// The bytes that a base58 text decodes to, if it is valid base58.
pub uninterp spec fn base58_bytes(text: Seq<char>) -> Option<Seq<u8>>;

// ---------------------------------------------------------------------------
// Trusted items.
// ---------------------------------------------------------------------------

/// The error of `bs58::decode(..).into_vec()`.
#[verifier::external_type_specification]
#[verifier::external_body]
pub struct ExBase58DecodeError(bs58::decode::Error);

/// Calls `libp2p_identity::ed25519::SecretKey::generate`, which fills 32 bytes from a
/// random number generator.  Only the length of the result is claimed.
#[verifier::external_body]
fn generate_secret_key() -> (r: Vec<u8>)
    ensures
        r@.len() == 32,
{
    let sk = libp2p_identity::ed25519::SecretKey::generate();
    sk.as_ref().to_vec()
}

/// Calls `libp2p_identity::ed25519::SecretKey::try_from_bytes`, turns the secret key into
/// a keypair (`Keypair::from`) and takes `Keypair::public().to_bytes()`.
/// Claims: the result is the 32 byte public key named by `ed25519_public_of`, and those
/// bytes decode back to a public key (so a peer id can be derived from them), as
/// `PublicKey::try_from_bytes` accepts every output of `PublicKey::to_bytes`.
#[verifier::external_body]
fn ed25519_public_key(secret: &[u8]) -> (r: Vec<u8>)
    requires
        secret@.len() == 32,
    ensures
        r@ == ed25519_public_of(secret@),
        r@.len() == 32,
        libp2p_peer_id_of(r@) is Some,
{
    match libp2p_identity::ed25519::SecretKey::try_from_bytes(secret.to_vec()) {
        Ok(sk) => libp2p_identity::ed25519::Keypair::from(sk).public().to_bytes().to_vec(),
        Err(_) => Vec::new(),
    }
}

/// Calls `libp2p_identity::ed25519::Keypair::sign` on the keypair of a 32 byte secret key.
/// Claims: the result is the 64 byte signature named by `ed25519_signature`, and it
/// verifies under the public key of the same secret (correctness of Ed25519, RFC 8032).
#[verifier::external_body]
fn ed25519_sign(secret: &[u8], msg: &[u8]) -> (r: Vec<u8>)
    requires
        secret@.len() == 32,
    ensures
        r@ == ed25519_signature(secret@, msg@),
        r@.len() == 64,
        ed25519_verifies(ed25519_public_of(secret@), msg@, r@),
{
    match libp2p_identity::ed25519::SecretKey::try_from_bytes(secret.to_vec()) {
        Ok(sk) => libp2p_identity::ed25519::Keypair::from(sk).sign(msg),
        Err(_) => Vec::new(),
    }
}

/// Calls `libp2p_identity::ed25519::PublicKey::try_from_bytes` and then
/// `PublicKey::verify`; bytes that are no public key verify nothing.
/// Claims only that the result is the value named by `ed25519_verifies`.
#[verifier::external_body]
fn ed25519_verify(public: &[u8], msg: &[u8], sig: &[u8]) -> (r: bool)
    ensures
        r == ed25519_verifies(public@, msg@, sig@),
{
    match libp2p_identity::ed25519::PublicKey::try_from_bytes(public) {
        Ok(pk) => pk.verify(msg, sig),
        Err(_) => false,
    }
}

/// Calls `libp2p_identity::PeerId::from_public_key` on the decoded Ed25519 public key and
/// returns `PeerId::to_bytes`; `None` where the bytes are no public key.
#[verifier::external_body]
fn libp2p_peer_id(public: &[u8]) -> (r: Option<Vec<u8>>)
    ensures
        r matches Some(v) ==> libp2p_peer_id_of(public@) == Some(v@),
        r is None ==> libp2p_peer_id_of(public@) is None,
{
    match libp2p_identity::ed25519::PublicKey::try_from_bytes(public) {
        Ok(pk) => Some(
            libp2p_identity::PeerId::from_public_key(&libp2p_identity::PublicKey::from(pk))
                .to_bytes(),
        ),
        Err(_) => None,
    }
}

/// Calls `libp2p_identity::PeerId::random` and returns `PeerId::to_bytes`.  Random: nothing
/// is claimed of the result.
#[verifier::external_body]
fn libp2p_random_peer_id() -> (r: Vec<u8>) {
    libp2p_identity::PeerId::random().to_bytes()
}

/// Calls `blake2::Blake2b256::digest` (`Digest::digest`).
/// Claims: the result is the digest named by `blake2b256`.
#[verifier::external_body]
fn blake2b256_digest(data: &[u8]) -> (r: [u8; 32])
    ensures
        r@ == blake2b256(data@),
{
    <blake2::Blake2b256 as blake2::Digest>::digest(data).into()
}

/// Calls `bs58::encode(data).into_string()`.
/// Claims: the result is the text named by `base58_text`, and decoding that text with
/// `bs58::decode` gives the same bytes back (the two are inverse, as the crate documents).
#[verifier::external_body]
pub(crate) fn base58_encode(data: &[u8]) -> (r: String)
    ensures
        r@ == base58_text(data@),
        base58_bytes(r@) == Some(data@),
{
    bs58::encode(data).into_string()
}

/// Calls `bs58::decode(text).into_vec()`.
/// Claims: success exactly where `base58_bytes` is defined, with those bytes.
#[verifier::external_body]
pub(crate) fn base58_decode(text: &str) -> (r: Result<Vec<u8>, bs58::decode::Error>)
    ensures
        r matches Ok(v) ==> base58_bytes(text@) == Some(v@),
        r is Err ==> base58_bytes(text@) is None,
{
    bs58::decode(text).into_vec()
}

// ---------------------------------------------------------------------------
// Library types.
// ---------------------------------------------------------------------------

/// The bytes of a hash.
pub type HashBytes = [u8; 32];

/// A 32 byte BLAKE2b hash identifying a block or a message.
#[derive(Debug, Clone, Copy, PartialEq, Eq, Hash)]
pub struct HashType(pub [u8; 32]);

impl View for HashType {
    type V = Seq<u8>;

    open spec fn view(&self) -> Seq<u8> {
        self.0@
    }
}

impl HashType {
    pub fn new(bytes: [u8; 32]) -> (r: HashType)
        ensures
            r.view() == bytes@,
    {
        HashType(bytes)
    }

    /// Hashes `data` with BLAKE2b-256.
    pub fn digest(data: &[u8]) -> (r: HashType)
        ensures
            r.view() == blake2b256(data@),
    {
        HashType(blake2b256_digest(data))
    }

    /// Compares the bytes of two hashes.
    pub fn same(&self, other: &HashType) -> (r: bool)
        ensures
            r == (self.view() == other.view()),
    {
        bytes_eq(self.0.as_slice(), other.0.as_slice())
    }

    /// The base58 text of the hash.
    pub fn to_base58(&self) -> (r: String)
        ensures
            r@ == base58_text(self.view()),
            base58_bytes(r@) == Some(self.view()),
    {
        base58_encode(self.0.as_slice())
    }

    /// Parses the base58 text of a hash.
    pub fn parse(text: &str) -> (r: Result<HashType, HashParseError>)
        ensures
            r matches Ok(h) ==> base58_bytes(text@) == Some(h.view()),
            r is Ok <==> (base58_bytes(text@) matches Some(b) && b.len() == 32),
    {
        match base58_decode(text) {
            Ok(v) => {
                if v.len() == 32 {
                    let mut out = [0u8; 32];
                    let mut i: usize = 0;
                    while i < 32
                        invariant
                            v@.len() == 32,
                            i <= 32,
                            forall|j: int| 0 <= j < i ==> out@[j] == v@[j],
                        decreases 32 - i,
                    {
                        out[i] = v[i];
                        i = i + 1;
                    }
                    assert(out@ =~= v@);
                    Ok(HashType(out))
                } else {
                    Err(HashParseError::InvalidLength(v.len()))
                }
            },
            Err(e) => Err(HashParseError::InvalidBase58(e)),
        }
    }
}

/// Why a text is no hash.
#[derive(Debug)]
pub enum HashParseError {
    /// The text is not base58.
    InvalidBase58(bs58::decode::Error),
    /// The text decodes to this many bytes, not 32.
    InvalidLength(usize),
}

/// An encoded Ed25519 public key.
#[derive(Debug, PartialEq, Eq, Hash, PartialOrd, Ord)]
pub struct PublicKey(pub Vec<u8>);

/// An Ed25519 signature.
#[derive(Debug, PartialEq, Eq, Hash, PartialOrd, Ord)]
pub struct Signature(pub Vec<u8>);

/// The bytes of a libp2p peer id.
#[derive(Debug, PartialEq, Eq, Hash, PartialOrd, Ord)]
pub struct PeerId(pub Vec<u8>);

impl View for PublicKey {
    type V = Seq<u8>;

    open spec fn view(&self) -> Seq<u8> {
        self.0@
    }
}

impl View for Signature {
    type V = Seq<u8>;

    open spec fn view(&self) -> Seq<u8> {
        self.0@
    }
}

impl View for PeerId {
    type V = Seq<u8>;

    open spec fn view(&self) -> Seq<u8> {
        self.0@
    }
}

impl Clone for PublicKey {
    fn clone(&self) -> (r: Self)
        ensures
            r@ == self@,
    {
        PublicKey(clone_bytes(&self.0))
    }
}

impl Clone for Signature {
    fn clone(&self) -> (r: Self)
        ensures
            r@ == self@,
    {
        Signature(clone_bytes(&self.0))
    }
}

impl Clone for PeerId {
    fn clone(&self) -> (r: Self)
        ensures
            r@ == self@,
    {
        PeerId(clone_bytes(&self.0))
    }
}

impl PublicKey {
    /// Checks `signature` over `msg` with this key.
    pub fn verify(&self, msg: &[u8], signature: &Signature) -> (r: bool)
        ensures
            r == ed25519_verifies(self.0@, msg@, signature.0@),
    {
        ed25519_verify(self.0.as_slice(), msg, signature.0.as_slice())
    }

    /// The peer id of the node that holds this key, if the bytes are a public key.
    pub fn peer_id(&self) -> (r: Option<PeerId>)
        ensures
            r matches Some(p) ==> libp2p_peer_id_of(self.0@) == Some(p.0@),
            r is None <==> libp2p_peer_id_of(self.0@) is None,
    {
        match libp2p_peer_id(self.0.as_slice()) {
            Some(v) => Some(PeerId(v)),
            None => None,
        }
    }

    /// The base58 text of the key.
    pub fn to_base58(&self) -> (r: String)
        ensures
            r@ == base58_text(self.0@),
    {
        base58_encode(self.0.as_slice())
    }
}

impl PeerId {
    /// A random peer id.
    pub fn random() -> PeerId {
        PeerId(libp2p_random_peer_id())
    }

    /// Compares the bytes of two peer ids.
    pub fn same(&self, other: &PeerId) -> (r: bool)
        ensures
            r == (self.0@ == other.0@),
    {
        bytes_eq(self.0.as_slice(), other.0.as_slice())
    }

    /// The base58 text of the peer id, as libp2p prints it.
    pub fn to_base58(&self) -> (r: String)
        ensures
            r@ == base58_text(self.0@),
    {
        base58_encode(self.0.as_slice())
    }
}

/// An Ed25519 keypair, held as its 32 byte secret key and the public key derived from it.
#[derive(Debug)]
pub struct Keypair {
    secret: Vec<u8>,
    public: PublicKey,
}

impl Keypair {
    /// The secret key bytes.
    pub closed spec fn secret_bytes(&self) -> Seq<u8> {
        self.secret@
    }

    /// The keypair is a 32 byte secret with its own public key.
    #[verifier::type_invariant]
    pub closed spec fn wf(&self) -> bool {
        &&& self.secret@.len() == 32
        &&& self.public.0@ == ed25519_public_of(self.secret@)
        &&& libp2p_peer_id_of(self.public.0@) is Some
    }

    /// The public key bytes.
    pub open spec fn public_bytes(&self) -> Seq<u8> {
        ed25519_public_of(self.secret_bytes())
    }

    /// A fresh random keypair.
    pub fn generate() -> (r: Keypair)
        ensures
            r.wf(),
            r.secret_bytes().len() == 32,
    {
        let secret = generate_secret_key();
        let public = PublicKey(ed25519_public_key(secret.as_slice()));
        Keypair { secret, public }
    }

    /// The keypair of a 32 byte secret key; `None` for any other length.
    pub fn from_secret_bytes(secret: Vec<u8>) -> (r: Option<Keypair>)
        ensures
            r is Some <==> secret@.len() == 32,
            r matches Some(k) ==> k.wf() && k.secret_bytes() == secret@,
    {
        if secret.len() == 32 {
            let public = PublicKey(ed25519_public_key(secret.as_slice()));
            Some(Keypair { secret, public })
        } else {
            None
        }
    }

    /// A copy of the secret key bytes.
    pub fn secret_key(&self) -> (r: Vec<u8>)
        ensures
            r@ == self.secret_bytes(),
    {
        clone_bytes(&self.secret)
    }

    /// The public key.
    pub fn public_key(&self) -> (r: PublicKey)
        requires
            self.wf(),
        ensures
            r.0@ == self.public_bytes(),
    {
        self.public.clone()
    }

    /// The peer id of this node.
    pub fn peer_id(&self) -> (r: PeerId)
        requires
            self.wf(),
        ensures
            libp2p_peer_id_of(self.public_bytes()) == Some(r.0@),
    {
        match libp2p_peer_id(self.public.0.as_slice()) {
            Some(v) => PeerId(v),
            None => PeerId(Vec::new()),
        }
    }

    /// Signs `msg`.
    pub fn sign(&self, msg: &[u8]) -> (r: Signature)
        requires
            self.wf(),
        ensures
            r.0@ == ed25519_signature(self.secret_bytes(), msg@),
            ed25519_verifies(self.public_bytes(), msg@, r.0@),
    {
        Signature(ed25519_sign(self.secret.as_slice(), msg))
    }

    /// Checks a signature with the public key of this keypair.
    pub fn verify(&self, msg: &[u8], signature: &Signature) -> (r: bool)
        requires
            self.wf(),
        ensures
            r == ed25519_verifies(self.public_bytes(), msg@, signature.0@),
    {
        self.public.verify(msg, signature)
    }

    /// The base58 text of the secret key.
    pub fn to_base58(&self) -> (r: String)
        ensures
            r@ == base58_text(self.secret_bytes()),
    {
        base58_encode(self.secret.as_slice())
    }

    /// Reads a keypair from the base58 text of its secret key.
    pub fn from_base58(text: &str) -> (r: Option<Keypair>)
        ensures
            r is Some <==> (base58_bytes(text@) matches Some(b) && b.len() == 32),
            r matches Some(k) ==> k.wf() && base58_bytes(text@) == Some(k.secret_bytes()),
    {
        match base58_decode(text) {
            Ok(v) => Keypair::from_secret_bytes(v),
            Err(_) => None,
        }
    }
}

/// Why a key operation failed.
#[derive(Debug, Clone, Copy, PartialEq, Eq, Structural)]
pub enum KeyPairError {
    /// A key or signature has the wrong length.
    SliceLength,
    /// A signature is not valid.
    Signature,
    /// A private key is not valid.
    PrivateKey,
}

/// A keypair that signs messages into text and checks such signatures.
pub trait KeyPair: Sized {
    /// The signature of a message.
    type Signature;

    /// Succeeds when `signature` is a valid signature of `message` under this keypair.
    fn verify(&self, message: &[u8], signature: &Self::Signature) -> Result<(), KeyPairError>;

    /// The signature of `message`.
    fn sign_hex(&self, message: &[u8]) -> Result<Self::Signature, KeyPairError>;

    /// A fresh random keypair.
    fn generate() -> Result<Self, KeyPairError>;
}

/// `Hexify::hexify` of `array-bytes` on a byte slice: two lower case hex digits per
/// byte, no prefix.
#[verifier::external_body]
pub(crate) fn hexify(bytes: &[u8]) -> (r: String)
    ensures
        r@ == crate::hex::hex_text(bytes@),
{
    array_bytes::Hexify::hexify(bytes)
}

/// An Ed25519 keypair that signs into lower case hex text.
#[derive(Debug)]
pub struct Ed25519KeyPair(pub Keypair);

impl KeyPair for Ed25519KeyPair {
    /// The lower case hex text of an Ed25519 signature.
    type Signature = String;

    fn verify(&self, message: &[u8], signature: &String) -> (r: Result<(), KeyPairError>)
        ensures
            crate::hex::hex_decode(signature@) is None ==> r == Err::<(), KeyPairError>(
                KeyPairError::Signature,
            ),
            crate::hex::hex_decode(signature@) matches Some(sig) ==> (r is Ok
                <==> ed25519_verifies(self.0.public_bytes(), message@, sig)),
            r is Err ==> r == Err::<(), KeyPairError>(KeyPairError::Signature),
    {
        proof {
            use_type_invariant(&self.0);
        }
        match crate::hex::dehexify(signature.as_str()) {
            Some(bytes) => {
                if self.0.verify(message, &Signature(bytes)) {
                    Ok(())
                } else {
                    Err(KeyPairError::Signature)
                }
            },
            None => Err(KeyPairError::Signature),
        }
    }

    fn sign_hex(&self, message: &[u8]) -> (r: Result<String, KeyPairError>)
        ensures
            r matches Ok(s) && s@ == crate::hex::hex_text(
                ed25519_signature(self.0.secret_bytes(), message@),
            ),
    {
        proof {
            use_type_invariant(&self.0);
        }
        let signature = self.0.sign(message);
        Ok(hexify(signature.0.as_slice()))
    }

    fn generate() -> (r: Result<Ed25519KeyPair, KeyPairError>)
        ensures
            r is Ok,
    {
        Ok(Ed25519KeyPair(Keypair::generate()))
    }
}

/// A signature together with the public key that checks it.
#[derive(Debug, PartialEq, Eq, Hash, PartialOrd, Ord)]
pub struct Certificate {
    pub signature: Signature,
    pub public_key: PublicKey,
}

impl View for Certificate {
    type V = (Seq<u8>, Seq<u8>);

    /// The signature bytes and the public key bytes.
    open spec fn view(&self) -> (Seq<u8>, Seq<u8>) {
        (self.signature@, self.public_key@)
    }
}

impl Clone for Certificate {
    fn clone(&self) -> (r: Self)
        ensures
            r@ == self@,
    {
        Certificate { signature: self.signature.clone(), public_key: self.public_key.clone() }
    }
}

impl Certificate {
    /// Signs already encoded bytes with `keypair`.
    pub fn prepare_bytes(keypair: &Keypair, data: &[u8]) -> (r: Certificate)
        requires
            keypair.wf(),
        ensures
            r.signature.0@ == ed25519_signature(keypair.secret_bytes(), data@),
            r.public_key.0@ == keypair.public_bytes(),
            ed25519_verifies(r.public_key.0@, data@, r.signature.0@),
    {
        let signature = keypair.sign(data);
        let public_key = keypair.public_key();
        Certificate { signature, public_key }
    }

    /// Checks the certificate against already encoded bytes.
    pub fn verify_bytes(&self, data: &[u8]) -> (r: bool)
        ensures
            r == ed25519_verifies(self.public_key.0@, data@, self.signature.0@),
    {
        self.public_key.verify(data, &self.signature)
    }
}

} // verus!
