//! The types of the API: messages, certificates and blocks as clients see them, the
//! node's public configuration, health, and the DHT requests.

use vstd::prelude::*;
use vstd::string::StringSliceAdditionalSpecFns;
use crate::api::application::ApplicationError;
use crate::block::types::block::{
    raw_block_json, Block, BlockHeader, BlockView, RawHeaderView,
};
use crate::block::types::message::{utf8, EphemeraMessage, MessageView};
use crate::bytes::clone_bytes;
use crate::crypto::{
    base58_bytes, base58_text, ed25519_signature, ed25519_verifies, Certificate, HashParseError,
    HashType, Keypair, PeerId, PublicKey, Signature,
};
use crate::encoding::{
    decimal, json_bytes, json_key, json_string, push_decimal, push_json_bytes, push_json_string,
    push_key,
};
use crate::hex::{dehexify, hex_decode, hexify_prefixed, prefixed_hex_text};
use crate::utilities::EphemeraTime;

verus! {

/// Why an API request failed.
#[derive(Debug)]
pub enum ApiError {
    /// The application rejected the message.
    ApplicationRejectedMessage,
    /// The message is already in the pool.
    DuplicateMessage,
    /// The block hash is not the base58 text of 32 bytes.
    InvalidBlockHash(HashParseError),
    /// The application failed.
    Application(ApplicationError),
    /// Anything else.
    Internal(anyhow::Error),
}

// ---------------------------------------------------------------------------
// Certificates.
// ---------------------------------------------------------------------------

/// A signature and the public key that checks it.
#[derive(Debug, PartialEq, Eq)]
pub struct ApiCertificate {
    pub signature: Signature,
    pub public_key: PublicKey,
}

impl View for ApiCertificate {
    type V = (Seq<u8>, Seq<u8>);

    /// The signature bytes and the public key bytes.
    open spec fn view(&self) -> (Seq<u8>, Seq<u8>) {
        (self.signature@, self.public_key@)
    }
}

impl Clone for ApiCertificate {
    fn clone(&self) -> (r: Self)
        ensures
            r@ == self@,
    {
        ApiCertificate { signature: self.signature.clone(), public_key: self.public_key.clone() }
    }
}

impl ApiCertificate {
    /// Signs the encoded bytes of a value with `key_pair`.
    pub fn prepare(key_pair: &Keypair, data: &[u8]) -> (r: Self)
        requires
            key_pair.wf(),
        ensures
            r.signature@ == ed25519_signature(key_pair.secret_bytes(), data@),
            r.public_key@ == key_pair.public_bytes(),
            ed25519_verifies(r.public_key@, data@, r.signature@),
    {
        Self::from_certificate(Certificate::prepare_bytes(key_pair, data))
    }

    /// Whether the certificate signs the encoded bytes of a value.
    pub fn verify(&self, data: &[u8]) -> (r: bool)
        ensures
            r == ed25519_verifies(self.public_key@, data@, self.signature@),
    {
        let certificate = self.clone().into_certificate();
        certificate.verify_bytes(data)
    }

    pub fn from_certificate(certificate: Certificate) -> (r: Self)
        ensures
            r@ == certificate@,
    {
        ApiCertificate { signature: certificate.signature, public_key: certificate.public_key }
    }

    pub fn into_certificate(self) -> (r: Certificate)
        ensures
            r@ == self@,
    {
        Certificate { signature: self.signature, public_key: self.public_key }
    }
}

// ---------------------------------------------------------------------------
// Messages.
// ---------------------------------------------------------------------------

/// `{"timestamp":n,"label":"..","data":[..]}`: the bytes that the author of an API
/// message signs.
pub open spec fn raw_api_message_json(timestamp: u64, label: Seq<char>, data: Seq<u8>) -> Seq<u8> {
    seq![0x7bu8] + json_key("timestamp".spec_bytes()) + decimal(timestamp as nat) + seq![0x2cu8]
        + json_key("label".spec_bytes()) + json_string(utf8(label)) + seq![0x2cu8] + json_key(
        "data".spec_bytes(),
    ) + json_bytes(data) + seq![0x7du8]
}

/// A message submitted to a node.  It is gossiped to the other nodes and eventually
/// included in a block.  Its author signs the time stamp, the label and the data.
#[derive(Debug, PartialEq, Eq)]
pub struct ApiEphemeraMessage {
    /// When the message was made, in seconds since the Unix epoch.
    pub timestamp: u64,
    /// What kind of message this is, for the application.
    pub label: String,
    /// Application specific data.
    pub data: Vec<u8>,
    /// The author's signature.
    pub certificate: ApiCertificate,
}

impl View for ApiEphemeraMessage {
    type V = MessageView;

    open spec fn view(&self) -> MessageView {
        MessageView {
            timestamp: self.timestamp,
            label: self.label@,
            data: self.data@,
            signature: self.certificate.signature@,
            public_key: self.certificate.public_key@,
        }
    }
}

impl Clone for ApiEphemeraMessage {
    fn clone(&self) -> (r: Self)
        ensures
            r@ == self@,
    {
        ApiEphemeraMessage {
            timestamp: self.timestamp,
            label: self.label.clone(),
            data: clone_bytes(&self.data),
            certificate: self.certificate.clone(),
        }
    }
}

impl ApiEphemeraMessage {
    /// The signed message of a raw message and its certificate.
    pub fn new(raw_message: RawApiEphemeraMessage, certificate: ApiCertificate) -> (r: Self)
        ensures
            r.timestamp == raw_message.timestamp,
            r.label@ == raw_message.label@,
            r.data@ == raw_message.data@,
            r.certificate@ == certificate@,
    {
        ApiEphemeraMessage {
            timestamp: raw_message.timestamp,
            label: raw_message.label,
            data: raw_message.data,
            certificate,
        }
    }

    /// The same message as the node holds it.
    pub fn into_message(self) -> (r: EphemeraMessage)
        ensures
            r@ == self@,
    {
        EphemeraMessage {
            timestamp: self.timestamp,
            label: self.label,
            data: self.data,
            certificate: self.certificate.into_certificate(),
        }
    }

    /// A message of the node as the API shows it.
    pub fn from_message(message: EphemeraMessage) -> (r: Self)
        ensures
            r@ == message@,
    {
        ApiEphemeraMessage {
            timestamp: message.timestamp,
            label: message.label,
            data: message.data,
            certificate: ApiCertificate::from_certificate(message.certificate),
        }
    }
}

/// The part of an API message that its author signs.
#[derive(Debug, PartialEq, Eq)]
pub struct RawApiEphemeraMessage {
    /// When the message was made, in seconds since the Unix epoch.
    pub timestamp: u64,
    pub label: String,
    pub data: Vec<u8>,
}

impl Clone for RawApiEphemeraMessage {
    fn clone(&self) -> (r: Self)
        ensures
            r.timestamp == self.timestamp,
            r.label@ == self.label@,
            r.data@ == self.data@,
    {
        RawApiEphemeraMessage {
            timestamp: self.timestamp,
            label: self.label.clone(),
            data: clone_bytes(&self.data),
        }
    }
}

impl RawApiEphemeraMessage {
    /// A message stamped with the current time.
    pub fn new(label: String, data: Vec<u8>) -> (r: Self)
        ensures
            r.label@ == label@,
            r.data@ == data@,
    {
        RawApiEphemeraMessage { timestamp: EphemeraTime::now(), label, data }
    }

    /// The bytes that are signed.
    pub fn encode(&self) -> (r: Vec<u8>)
        ensures
            r@ == raw_api_message_json(self.timestamp, self.label@, self.data@),
    {
        let mut out: Vec<u8> = Vec::new();
        out.push(0x7b);
        push_key(&mut out, "timestamp");
        push_decimal(&mut out, self.timestamp);
        out.push(0x2c);
        push_key(&mut out, "label");
        push_json_string(&mut out, self.label.as_str().as_bytes());
        out.push(0x2c);
        push_key(&mut out, "data");
        push_json_bytes(&mut out, self.data.as_slice());
        out.push(0x7d);
        assert(out@ =~= raw_api_message_json(self.timestamp, self.label@, self.data@));
        out
    }

    /// Signs the message with `keypair`.
    pub fn sign(&self, keypair: &Keypair) -> (r: ApiEphemeraMessage)
        requires
            keypair.wf(),
        ensures
            r.timestamp == self.timestamp,
            r.label@ == self.label@,
            r.data@ == self.data@,
            r.certificate.public_key@ == keypair.public_bytes(),
            r.certificate.signature@ == ed25519_signature(
                keypair.secret_bytes(),
                raw_api_message_json(self.timestamp, self.label@, self.data@),
            ),
            ed25519_verifies(
                r.certificate.public_key@,
                raw_api_message_json(r.timestamp, r.label@, r.data@),
                r.certificate.signature@,
            ),
    {
        let bytes = self.encode();
        let certificate = ApiCertificate::prepare(keypair, bytes.as_slice());
        ApiEphemeraMessage::new(self.clone(), certificate)
    }

    /// The signed part of an API message.
    pub fn from_api(message: ApiEphemeraMessage) -> (r: Self)
        ensures
            r.timestamp == message.timestamp,
            r.label@ == message.label@,
            r.data@ == message.data@,
    {
        RawApiEphemeraMessage {
            timestamp: message.timestamp,
            label: message.label,
            data: message.data,
        }
    }
}

// ---------------------------------------------------------------------------
// Blocks.
// ---------------------------------------------------------------------------

/// The abstract value of an API block header.
pub struct ApiHeaderView {
    pub timestamp: u64,
    pub creator: Seq<u8>,
    pub height: u64,
    pub hash: Seq<char>,
}

/// A block header; the hash is written in base58.
#[derive(Debug, PartialEq, Eq)]
pub struct ApiBlockHeader {
    /// When the block was made, in seconds since the Unix epoch.
    pub timestamp: u64,
    /// The peer id of the node that made the block.
    pub creator: PeerId,
    /// The height of the block.
    pub height: u64,
    /// The base58 text of the block hash.
    pub hash: String,
}

impl View for ApiBlockHeader {
    type V = ApiHeaderView;

    open spec fn view(&self) -> ApiHeaderView {
        ApiHeaderView {
            timestamp: self.timestamp,
            creator: self.creator@,
            height: self.height,
            hash: self.hash@,
        }
    }
}

impl Clone for ApiBlockHeader {
    fn clone(&self) -> (r: Self)
        ensures
            r@ == self@,
    {
        ApiBlockHeader {
            timestamp: self.timestamp,
            creator: self.creator.clone(),
            height: self.height,
            hash: self.hash.clone(),
        }
    }
}

/// The header of a block without its hash.
pub open spec fn api_raw_header(h: ApiHeaderView) -> RawHeaderView {
    RawHeaderView { timestamp: h.timestamp, creator: h.creator, height: h.height }
}

/// The abstract values of a list of API messages.
pub open spec fn api_messages_view(ms: Seq<ApiEphemeraMessage>) -> Seq<MessageView> {
    ms.map_values(|m: ApiEphemeraMessage| m@)
}

/// Clones a list of API messages.
pub fn clone_api_messages(ms: &Vec<ApiEphemeraMessage>) -> (r: Vec<ApiEphemeraMessage>)
    ensures
        api_messages_view(r@) == api_messages_view(ms@),
{
    let mut out: Vec<ApiEphemeraMessage> = Vec::new();
    let mut i: usize = 0;
    while i < ms.len()
        invariant
            i <= ms@.len(),
            out@.len() == i,
            forall|j: int| 0 <= j < i ==> out@[j]@ == ms@[j]@,
        decreases ms@.len() - i,
    {
        out.push(ms[i].clone());
        i = i + 1;
    }
    assert(api_messages_view(out@) =~= api_messages_view(ms@));
    out
}

/// A block as the API shows it.
#[derive(Debug, PartialEq, Eq)]
pub struct ApiBlock {
    pub header: ApiBlockHeader,
    pub messages: Vec<ApiEphemeraMessage>,
}

/// What the API shows of a block of the node: its header with the hash in base58, and
/// its messages.
pub open spec fn api_block_view(b: BlockView) -> (ApiHeaderView, Seq<MessageView>) {
    (
        ApiHeaderView {
            timestamp: b.header.timestamp,
            creator: b.header.creator,
            height: b.header.height,
            hash: base58_text(b.hash),
        },
        b.messages,
    )
}

impl View for ApiBlock {
    type V = (ApiHeaderView, Seq<MessageView>);

    open spec fn view(&self) -> (ApiHeaderView, Seq<MessageView>) {
        (self.header@, api_messages_view(self.messages@))
    }
}

impl Clone for ApiBlock {
    fn clone(&self) -> (r: Self)
        ensures
            r@ == self@,
    {
        ApiBlock { header: self.header.clone(), messages: clone_api_messages(&self.messages) }
    }
}

/// A block header and messages, without a claim that they belong together.
#[derive(Debug, PartialEq, Eq)]
pub struct ApiRawBlock {
    pub header: ApiBlockHeader,
    pub messages: Vec<ApiEphemeraMessage>,
}

impl View for ApiRawBlock {
    type V = (ApiHeaderView, Seq<MessageView>);

    open spec fn view(&self) -> (ApiHeaderView, Seq<MessageView>) {
        (self.header@, api_messages_view(self.messages@))
    }
}

impl ApiRawBlock {
    pub fn new(header: ApiBlockHeader, messages: Vec<ApiEphemeraMessage>) -> (r: Self)
        ensures
            r.header@ == header@,
            r.messages@ == messages@,
    {
        ApiRawBlock { header, messages }
    }
}

impl ApiBlock {
    /// A copy of the header and messages.
    pub fn as_raw_block(&self) -> (r: ApiRawBlock)
        ensures
            r@ == self@,
    {
        ApiRawBlock { header: self.header.clone(), messages: clone_api_messages(&self.messages) }
    }

    pub fn message_count(&self) -> (r: usize)
        ensures
            r == self.messages@.len(),
    {
        self.messages.len()
    }

    /// The base58 text of the block hash.
    pub fn hash(&self) -> (r: String)
        ensures
            r@ == self.header.hash@,
    {
        self.header.hash.clone()
    }

    /// Whether `certificate` signs the block.  Fails when the stated hash is not the
    /// base58 text of 32 bytes.
    pub fn verify(&self, certificate: &ApiCertificate) -> (r: core::result::Result<bool, ApiError>)
        ensures
            r is Ok <==> (base58_bytes(self.header.hash@) matches Some(b) && b.len() == 32),
            r matches Ok(valid) ==> valid == ed25519_verifies(
                certificate.public_key@,
                raw_block_json(api_raw_header(self@.0), self@.1),
                certificate.signature@,
            ),
            r matches Err(e) ==> e is InvalidBlockHash,
    {
        let block = self.clone().into_block()?;
        let valid = block.verify(&certificate.clone().into_certificate());
        Ok(valid)
    }

    /// A block of the node as the API shows it: the hash in base58.
    pub fn from_block(block: Block) -> (r: Self)
        ensures
            r@ == api_block_view(block@),
            base58_bytes(r.header.hash@) == Some(block@.hash),
    {
        let hash = block.header.hash.to_base58();
        let header = ApiBlockHeader {
            timestamp: block.header.timestamp,
            creator: block.header.creator,
            height: block.header.height,
            hash,
        };
        let mut messages: Vec<ApiEphemeraMessage> = Vec::new();
        let mut i: usize = 0;
        while i < block.messages.len()
            invariant
                i <= block.messages@.len(),
                messages@.len() == i,
                forall|j: int| 0 <= j < i ==> messages@[j]@ == block.messages@[j]@,
            decreases block.messages@.len() - i,
        {
            messages.push(ApiEphemeraMessage::from_message(block.messages[i].clone()));
            i = i + 1;
        }
        let r = ApiBlock { header, messages };
        assert(api_messages_view(r.messages@) =~= block@.messages);
        r
    }

    /// The block of the node that this API block stands for; fails when the stated
    /// hash is not the base58 text of 32 bytes.
    pub fn into_block(self) -> (r: core::result::Result<Block, ApiError>)
        ensures
            r is Ok <==> (base58_bytes(self.header.hash@) matches Some(b) && b.len() == 32),
            r matches Ok(b) ==> b@.header == api_raw_header(self@.0) && base58_bytes(
                self.header.hash@,
            ) == Some(b@.hash) && b@.messages == self@.1,
            r matches Err(e) ==> e is InvalidBlockHash,
    {
        let hash = match HashType::parse(self.header.hash.as_str()) {
            Ok(h) => h,
            Err(e) => {
                return Err(ApiError::InvalidBlockHash(e));
            },
        };
        let mut messages: Vec<EphemeraMessage> = Vec::new();
        let mut i: usize = 0;
        while i < self.messages.len()
            invariant
                i <= self.messages@.len(),
                messages@.len() == i,
                forall|j: int| 0 <= j < i ==> messages@[j]@ == self.messages@[j]@,
            decreases self.messages@.len() - i,
        {
            messages.push(self.messages[i].clone().into_message());
            i = i + 1;
        }
        let block = Block {
            header: BlockHeader {
                timestamp: self.header.timestamp,
                creator: self.header.creator,
                height: self.header.height,
                hash,
            },
            messages,
        };
        assert(block@.messages =~= api_messages_view(self.messages@));
        Ok(block)
    }
}

// ---------------------------------------------------------------------------
// Configuration, health and the broadcast group.
// ---------------------------------------------------------------------------

/// What a node tells about itself.
#[derive(Debug, PartialEq, Eq)]
pub struct ApiEphemeraConfig {
    /// The address that the node uses to talk to other nodes.
    pub protocol_address: String,
    /// The HTTP API address of the node.
    pub api_address: String,
    /// The WebSocket address of the node.
    pub websocket_address: String,
    /// The node's public key.
    pub public_key: String,
    /// Whether the node makes blocks.
    pub block_producer: bool,
    /// Seconds between two blocks.
    pub block_creation_interval_sec: u64,
}

/// Whether a node is healthy.
#[derive(Debug, PartialEq, Eq, Structural)]
pub enum HealthStatus {
    Healthy,
    Unhealthy,
}

/// The health of a node.
#[derive(Debug, PartialEq, Eq, Structural)]
pub struct Health {
    pub status: HealthStatus,
}

/// The peers that a block is broadcast to.
#[derive(Debug, PartialEq, Eq)]
pub struct ApiBroadcastGroup {
    pub peers: Vec<PeerId>,
}

impl ApiBroadcastGroup {
    pub fn new(peers: Vec<PeerId>) -> (r: Self)
        ensures
            r.peers@ == peers@,
    {
        ApiBroadcastGroup { peers }
    }

    pub fn peers(&self) -> (r: &Vec<PeerId>)
        ensures
            r@ == self.peers@,
    {
        &self.peers
    }
}

// ---------------------------------------------------------------------------
// DHT requests: keys and values travel as `0x`-prefixed hex text.
// ---------------------------------------------------------------------------

/// A request to store `value` under `key`.
#[derive(Debug, PartialEq, Eq)]
pub struct ApiDhtStoreRequest {
    key: String,
    value: String,
}

impl ApiDhtStoreRequest {
    /// Both texts are hex.
    #[verifier::type_invariant]
    spec fn hex_fields(&self) -> bool {
        &&& hex_decode(self.key@) is Some
        &&& hex_decode(self.value@) is Some
    }

    /// The hex text of the key.
    pub closed spec fn key_text(&self) -> Seq<char> {
        self.key@
    }

    /// The hex text of the value.
    pub closed spec fn value_text(&self) -> Seq<char> {
        self.value@
    }

    pub fn new(key: &[u8], value: &[u8]) -> (r: Self)
        ensures
            r.key_text() == prefixed_hex_text(key@),
            r.value_text() == prefixed_hex_text(value@),
    {
        proof {
            crate::hex::lemma_hex_round_trip(key@);
            crate::hex::lemma_hex_round_trip(value@);
        }
        ApiDhtStoreRequest { key: hexify_prefixed(key), value: hexify_prefixed(value) }
    }

    /// A request from the texts of a key and a value; `None` unless both are hex.
    pub fn from_hex(key: String, value: String) -> (r: Option<Self>)
        ensures
            r is Some <==> (hex_decode(key@) is Some && hex_decode(value@) is Some),
            r matches Some(q) ==> q.key_text() == key@ && q.value_text() == value@,
    {
        if dehexify(key.as_str()).is_some() && dehexify(value.as_str()).is_some() {
            Some(ApiDhtStoreRequest { key, value })
        } else {
            None
        }
    }

    /// The key bytes.
    pub fn key(&self) -> (r: Vec<u8>)
        ensures
            hex_decode(self.key_text()) == Some(r@),
    {
        proof {
            use_type_invariant(self);
        }
        dehexify(self.key.as_str()).unwrap()
    }

    /// The value bytes.
    pub fn value(&self) -> (r: Vec<u8>)
        ensures
            hex_decode(self.value_text()) == Some(r@),
    {
        proof {
            use_type_invariant(self);
        }
        dehexify(self.value.as_str()).unwrap()
    }
}

/// A request for the value stored under `key`.
#[derive(Debug, PartialEq, Eq)]
pub struct ApiDhtQueryRequest {
    key: String,
}

impl ApiDhtQueryRequest {
    /// The key text is hex.
    #[verifier::type_invariant]
    spec fn hex_key(&self) -> bool {
        hex_decode(self.key@) is Some
    }

    /// The hex text of the key.
    pub closed spec fn key_text(&self) -> Seq<char> {
        self.key@
    }

    pub fn new(key: &[u8]) -> (r: Self)
        ensures
            r.key_text() == prefixed_hex_text(key@),
    {
        proof {
            crate::hex::lemma_hex_round_trip(key@);
        }
        ApiDhtQueryRequest { key: hexify_prefixed(key) }
    }

    /// A request from the text of a key; `None` unless it is hex.
    pub fn from_hex(key: String) -> (r: Option<Self>)
        ensures
            r is Some <==> hex_decode(key@) is Some,
            r matches Some(q) ==> q.key_text() == key@,
    {
        if dehexify(key.as_str()).is_some() {
            Some(ApiDhtQueryRequest { key })
        } else {
            None
        }
    }

    /// The hex text of the key.
    pub fn key_encoded(&self) -> (r: String)
        ensures
            r@ == self.key_text(),
    {
        self.key.clone()
    }

    /// The key bytes.
    pub fn key(&self) -> (r: Vec<u8>)
        ensures
            hex_decode(self.key_text()) == Some(r@),
    {
        proof {
            use_type_invariant(self);
        }
        dehexify(self.key.as_str()).unwrap()
    }

    /// The bytes of a hex key text.
    pub fn parse_key(key: &str) -> (r: Vec<u8>)
        requires
            hex_decode(key@) is Some,
        ensures
            hex_decode(key@) == Some(r@),
    {
        dehexify(key).unwrap()
    }
}

/// The value stored under a key.
#[derive(Debug, PartialEq, Eq)]
pub struct ApiDhtQueryResponse {
    key: String,
    value: String,
}

impl ApiDhtQueryResponse {
    /// Both texts are hex.
    #[verifier::type_invariant]
    spec fn hex_fields(&self) -> bool {
        &&& hex_decode(self.key@) is Some
        &&& hex_decode(self.value@) is Some
    }

    /// The hex text of the key.
    pub closed spec fn key_text(&self) -> Seq<char> {
        self.key@
    }

    /// The hex text of the value.
    pub closed spec fn value_text(&self) -> Seq<char> {
        self.value@
    }

    pub fn new(key: Vec<u8>, value: Vec<u8>) -> (r: Self)
        ensures
            r.key_text() == prefixed_hex_text(key@),
            r.value_text() == prefixed_hex_text(value@),
    {
        proof {
            crate::hex::lemma_hex_round_trip(key@);
            crate::hex::lemma_hex_round_trip(value@);
        }
        ApiDhtQueryResponse {
            key: hexify_prefixed(key.as_slice()),
            value: hexify_prefixed(value.as_slice()),
        }
    }

    /// A response from the texts of a key and a value; `None` unless both are hex.
    pub fn from_hex(key: String, value: String) -> (r: Option<Self>)
        ensures
            r is Some <==> (hex_decode(key@) is Some && hex_decode(value@) is Some),
            r matches Some(q) ==> q.key_text() == key@ && q.value_text() == value@,
    {
        if dehexify(key.as_str()).is_some() && dehexify(value.as_str()).is_some() {
            Some(ApiDhtQueryResponse { key, value })
        } else {
            None
        }
    }

    /// The key bytes.
    pub fn key(&self) -> (r: Vec<u8>)
        ensures
            hex_decode(self.key_text()) == Some(r@),
    {
        proof {
            use_type_invariant(self);
        }
        dehexify(self.key.as_str()).unwrap()
    }

    /// The value bytes.
    pub fn value(&self) -> (r: Vec<u8>)
        ensures
            hex_decode(self.value_text()) == Some(r@),
    {
        proof {
            use_type_invariant(self);
        }
        dehexify(self.value.as_str()).unwrap()
    }
}

} // verus!
