//! Signed messages, the unit that applications submit and blocks carry.

use vstd::prelude::*;
use vstd::string::StringSliceAdditionalSpecFns;
use crate::bytes::clone_bytes;
use crate::crypto::{
    blake2b256, ed25519_signature, ed25519_verifies, Certificate, HashType, Keypair,
};
use crate::encoding::{
    decimal, json_bytes, json_key, json_string, push_decimal, push_json_bytes, push_json_string,
    push_key,
};
use crate::utilities::EphemeraTime;

verus! {

/// The abstract value of a signed message.
pub struct MessageView {
    pub timestamp: u64,
    pub label: Seq<char>,
    pub data: Seq<u8>,
    pub signature: Seq<u8>,
    pub public_key: Seq<u8>,
}

/// The UTF-8 bytes of a text.
pub open spec fn utf8(s: Seq<char>) -> Seq<u8> {
    vstd::utf8::encode_utf8(s)
}

/// `{"signature":[..],"public_key":[..]}`
pub open spec fn certificate_json(signature: Seq<u8>, public_key: Seq<u8>) -> Seq<u8> {
    seq![0x7bu8] + json_key("signature".spec_bytes()) + json_bytes(signature) + seq![0x2cu8]
        + json_key("public_key".spec_bytes()) + json_bytes(public_key) + seq![0x7du8]
}

/// `{"label":"..","data":[..]}`: the bytes that the author of a message signs.
pub open spec fn unsigned_message_json(label: Seq<char>, data: Seq<u8>) -> Seq<u8> {
    seq![0x7bu8] + json_key("label".spec_bytes()) + json_string(utf8(label)) + seq![0x2cu8]
        + json_key("data".spec_bytes()) + json_bytes(data) + seq![0x7du8]
}

/// `{"timestamp":n,"label":"..","data":[..],"certificate":{..}}`: the bytes that are
/// hashed to identify a message.
pub open spec fn message_json(m: MessageView) -> Seq<u8> {
    seq![0x7bu8] + json_key("timestamp".spec_bytes()) + decimal(m.timestamp as nat) + seq![0x2cu8]
        + json_key("label".spec_bytes()) + json_string(utf8(m.label)) + seq![0x2cu8]
        + json_key("data".spec_bytes()) + json_bytes(m.data) + seq![0x2cu8]
        + json_key("certificate".spec_bytes()) + certificate_json(m.signature, m.public_key)
        + seq![0x7du8]
}

/// The hash that identifies a message.
pub open spec fn message_hash(m: MessageView) -> Seq<u8> {
    blake2b256(message_json(m))
}

/// Appends the JSON of a certificate.
pub fn push_certificate_json(out: &mut Vec<u8>, c: &Certificate)
    ensures
        final(out)@ == old(out)@ + certificate_json(c.signature@, c.public_key@),
{
    let ghost start = out@;
    out.push(0x7b);
    push_key(out, "signature");
    push_json_bytes(out, c.signature.0.as_slice());
    out.push(0x2c);
    push_key(out, "public_key");
    push_json_bytes(out, c.public_key.0.as_slice());
    out.push(0x7d);
    assert(out@ =~= start + certificate_json(c.signature@, c.public_key@));
}

/// A message signed by its author.
#[derive(Debug, PartialEq, Eq, PartialOrd, Ord)]
pub struct EphemeraMessage {
    pub timestamp: u64,
    /// Application specific logical identifier of the message.
    pub label: String,
    /// Application specific data.
    pub data: Vec<u8>,
    /// Signature of the unsigned message.
    pub certificate: Certificate,
}

impl View for EphemeraMessage {
    type V = MessageView;

    open spec fn view(&self) -> MessageView {
        MessageView {
            timestamp: self.timestamp,
            label: self.label@,
            data: self.data@,
            signature: self.certificate.signature@,
            public_key: self.certificate.public_key@,
        }
    }
}

impl Clone for EphemeraMessage {
    fn clone(&self) -> (r: Self)
        ensures
            r@ == self@,
    {
        EphemeraMessage {
            timestamp: self.timestamp,
            label: self.label.clone(),
            data: clone_bytes(&self.data),
            certificate: self.certificate.clone(),
        }
    }
}

/// The part of a message that its author signs.
#[derive(Debug, PartialEq)]
pub struct UnsignedEphemeraMessage {
    pub label: String,
    pub data: Vec<u8>,
}

impl UnsignedEphemeraMessage {
    pub fn new(label: String, data: Vec<u8>) -> (r: Self)
        ensures
            r.label@ == label@,
            r.data@ == data@,
    {
        UnsignedEphemeraMessage { label, data }
    }

    /// The bytes that are signed.
    pub fn encode(&self) -> (r: Vec<u8>)
        ensures
            r@ == unsigned_message_json(self.label@, self.data@),
    {
        let mut out: Vec<u8> = Vec::new();
        out.push(0x7b);
        push_key(&mut out, "label");
        push_json_string(&mut out, self.label.as_str().as_bytes());
        out.push(0x2c);
        push_key(&mut out, "data");
        push_json_bytes(&mut out, self.data.as_slice());
        out.push(0x7d);
        assert(out@ =~= unsigned_message_json(self.label@, self.data@));
        out
    }

    /// Drops the time stamp and the certificate of a signed message.
    pub fn from_message(message: EphemeraMessage) -> (r: Self)
        ensures
            r.label@ == message.label@,
            r.data@ == message.data@,
    {
        UnsignedEphemeraMessage { label: message.label, data: message.data }
    }
}

impl EphemeraMessage {
    /// A signed message stamped with the current time.
    pub fn new(raw_message: UnsignedEphemeraMessage, certificate: Certificate) -> (r: Self)
        ensures
            r.label@ == raw_message.label@,
            r.data@ == raw_message.data@,
            r.certificate@ == certificate@,
    {
        EphemeraMessage {
            timestamp: EphemeraTime::now(),
            label: raw_message.label,
            data: raw_message.data,
            certificate,
        }
    }

    /// Signs `label` and `data` with `keypair` and stamps the message with the current time.
    pub fn signed(label: String, data: Vec<u8>, keypair: &Keypair) -> (r: Self)
        requires
            keypair.wf(),
        ensures
            r.label@ == label@,
            r.data@ == data@,
            r.certificate.public_key@ == keypair.public_bytes(),
            r.certificate.signature@ == ed25519_signature(
                keypair.secret_bytes(),
                unsigned_message_json(label@, data@),
            ),
            ed25519_verifies(
                r.certificate.public_key@,
                unsigned_message_json(r.label@, r.data@),
                r.certificate.signature@,
            ),
    {
        let raw_message = UnsignedEphemeraMessage::new(label, data);
        let bytes = raw_message.encode();
        let certificate = Certificate::prepare_bytes(keypair, bytes.as_slice());
        Self::new(raw_message, certificate)
    }

    /// The JSON bytes of the whole message.
    pub fn encode(&self) -> (r: Vec<u8>)
        ensures
            r@ == message_json(self@),
    {
        let mut out: Vec<u8> = Vec::new();
        out.push(0x7b);
        push_key(&mut out, "timestamp");
        push_decimal(&mut out, self.timestamp);
        out.push(0x2c);
        push_key(&mut out, "label");
        push_json_string(&mut out, self.label.as_str().as_bytes());
        out.push(0x2c);
        push_key(&mut out, "data");
        push_json_bytes(&mut out, self.data.as_slice());
        out.push(0x2c);
        push_key(&mut out, "certificate");
        push_certificate_json(&mut out, &self.certificate);
        out.push(0x7d);
        assert(out@ =~= message_json(self@));
        out
    }

    /// The hash that identifies the message.
    pub fn hash_with_default_hasher(&self) -> (r: HashType)
        ensures
            r@ == message_hash(self@),
    {
        let bytes = self.encode();
        HashType::digest(bytes.as_slice())
    }

    /// Whether the certificate signs the label and data of the message.
    pub fn verify(&self) -> (r: bool)
        ensures
            r == ed25519_verifies(
                self.certificate.public_key@,
                unsigned_message_json(self.label@, self.data@),
                self.certificate.signature@,
            ),
    {
        let raw = UnsignedEphemeraMessage {
            label: self.label.clone(),
            data: clone_bytes(&self.data),
        };
        let bytes = raw.encode();
        self.certificate.verify_bytes(bytes.as_slice())
    }
}

} // verus!
