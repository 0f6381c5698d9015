//! Blocks: a header and the messages that a node proposes together.

use vstd::prelude::*;
use vstd::string::StringSliceAdditionalSpecFns;
use crate::block::types::message::{message_json, EphemeraMessage, MessageView};
use crate::crypto::{
    blake2b256, ed25519_signature, ed25519_verifies, Certificate, HashType, Keypair, PeerId,
};
use crate::encoding::{decimal, json_bytes, json_key, push_decimal, push_json_bytes, push_key};
use crate::utilities::EphemeraTime;

verus! {

/// The abstract value of a block header without its hash.
pub struct RawHeaderView {
    pub timestamp: u64,
    pub creator: Seq<u8>,
    pub height: u64,
}

/// The abstract value of a block.
pub struct BlockView {
    pub header: RawHeaderView,
    pub hash: Seq<u8>,
    pub messages: Seq<MessageView>,
}

/// The abstract values of a list of messages.
pub open spec fn messages_view(ms: Seq<EphemeraMessage>) -> Seq<MessageView> {
    ms.map_values(|m: EphemeraMessage| m@)
}

/// `{"timestamp":n,"creator":[..],"height":n}`
pub open spec fn raw_header_json(h: RawHeaderView) -> Seq<u8> {
    seq![0x7bu8] + json_key("timestamp".spec_bytes()) + decimal(h.timestamp as nat) + seq![0x2cu8]
        + json_key("creator".spec_bytes()) + json_bytes(h.creator) + seq![0x2cu8]
        + json_key("height".spec_bytes()) + decimal(h.height as nat) + seq![0x7du8]
}

/// The JSON of the messages, separated by commas.
pub open spec fn message_list_json(ms: Seq<MessageView>) -> Seq<u8>
    decreases ms.len(),
{
    if ms.len() == 0 {
        Seq::empty()
    } else if ms.len() == 1 {
        message_json(ms[0])
    } else {
        message_list_json(ms.drop_last()) + seq![0x2cu8] + message_json(ms.last())
    }
}

/// The JSON of the messages, one after the other.
pub open spec fn message_concat_json(ms: Seq<MessageView>) -> Seq<u8>
    decreases ms.len(),
{
    if ms.len() == 0 {
        Seq::empty()
    } else {
        message_concat_json(ms.drop_last()) + message_json(ms.last())
    }
}

/// `{"header":{..},"messages":[..]}`: the bytes that block producers and voters sign.
pub open spec fn raw_block_json(h: RawHeaderView, ms: Seq<MessageView>) -> Seq<u8> {
    seq![0x7bu8] + json_key("header".spec_bytes()) + raw_header_json(h) + seq![0x2cu8]
        + json_key("messages".spec_bytes()) + seq![0x5bu8] + message_list_json(ms) + seq![
        0x5du8,
    ] + seq![0x7du8]
}

/// The hash of a block: BLAKE2b-256 over the header JSON followed by the JSON of each message.
pub open spec fn raw_block_hash(h: RawHeaderView, ms: Seq<MessageView>) -> Seq<u8> {
    blake2b256(raw_header_json(h) + message_concat_json(ms))
}

/// What a block's hash is taken over: the JSON of its header followed by the JSON of
/// each of its messages, in order, so that every message counts.  A block without
/// messages hashes its header alone, and adding a message appends that message's
/// (non-empty) JSON to the bytes that are hashed.
pub proof fn lemma_block_hash_covers_messages(h: RawHeaderView, ms: Seq<MessageView>, m: MessageView)
    ensures
        raw_block_hash(h, Seq::empty()) == blake2b256(raw_header_json(h)),
        raw_block_hash(h, ms) == blake2b256(raw_header_json(h) + message_concat_json(ms)),
        message_concat_json(Seq::empty()) == Seq::<u8>::empty(),
        message_concat_json(ms.push(m)) == message_concat_json(ms) + message_json(m),
        raw_block_hash(h, ms.push(m)) == blake2b256(
            raw_header_json(h) + message_concat_json(ms) + message_json(m),
        ),
        message_json(m).len() > 0,
{
    assert(ms.push(m).drop_last() =~= ms);
    assert(raw_header_json(h) + Seq::<u8>::empty() =~= raw_header_json(h));
    assert(raw_header_json(h) + (message_concat_json(ms) + message_json(m)) =~= raw_header_json(h)
        + message_concat_json(ms) + message_json(m));
}

/// Were BLAKE2b-256 injective, the hash would tell blocks apart by their messages: two
/// blocks with one header and equal hashes carry messages with the same JSON, and
/// adding a message to a block changes its hash.
pub proof fn lemma_block_hash_tells_messages_apart(
    h: RawHeaderView,
    ms1: Seq<MessageView>,
    ms2: Seq<MessageView>,
    m: MessageView,
)
    requires
        forall|x: Seq<u8>, y: Seq<u8>| #[trigger] blake2b256(x) == #[trigger] blake2b256(y) ==> x == y,
    ensures
        raw_block_hash(h, ms1) == raw_block_hash(h, ms2) ==> message_concat_json(ms1)
            == message_concat_json(ms2),
        raw_block_hash(h, ms1.push(m)) != raw_block_hash(h, ms1),
{
    lemma_block_hash_covers_messages(h, ms1, m);
    let a = raw_header_json(h);
    if raw_block_hash(h, ms1) == raw_block_hash(h, ms2) {
        let x = a + message_concat_json(ms1);
        let y = a + message_concat_json(ms2);
        assert(blake2b256(x) == blake2b256(y));
        assert(x == y);
        assert(x.subrange(a.len() as int, x.len() as int) =~= message_concat_json(ms1));
        assert(y.subrange(a.len() as int, y.len() as int) =~= message_concat_json(ms2));
    }
    let longer = a + message_concat_json(ms1) + message_json(m);
    let shorter = a + message_concat_json(ms1);
    assert(longer.len() > shorter.len());
    if blake2b256(longer) == blake2b256(shorter) {
        assert(longer == shorter);
    }
}

/// A block header with the hash of the block.
#[derive(Debug, PartialEq, Eq)]
pub struct BlockHeader {
    pub timestamp: u64,
    pub creator: PeerId,
    pub height: u64,
    pub hash: HashType,
}

/// A block header before the block is hashed.
#[derive(Debug, PartialEq)]
pub struct RawBlockHeader {
    pub timestamp: u64,
    pub creator: PeerId,
    pub height: u64,
}

/// A block with its hash.
#[derive(Debug, PartialEq, Eq)]
pub struct Block {
    pub header: BlockHeader,
    pub messages: Vec<EphemeraMessage>,
}

/// A block before it is hashed.
#[derive(Debug)]
pub struct RawBlock {
    pub header: RawBlockHeader,
    pub messages: Vec<EphemeraMessage>,
}

impl View for RawBlockHeader {
    type V = RawHeaderView;

    open spec fn view(&self) -> RawHeaderView {
        RawHeaderView { timestamp: self.timestamp, creator: self.creator@, height: self.height }
    }
}

impl View for BlockHeader {
    type V = (RawHeaderView, Seq<u8>);

    open spec fn view(&self) -> (RawHeaderView, Seq<u8>) {
        (
            RawHeaderView { timestamp: self.timestamp, creator: self.creator@, height: self.height },
            self.hash@,
        )
    }
}

impl View for Block {
    type V = BlockView;

    open spec fn view(&self) -> BlockView {
        BlockView {
            header: self.header@.0,
            hash: self.header.hash@,
            messages: messages_view(self.messages@),
        }
    }
}

impl View for RawBlock {
    type V = (RawHeaderView, Seq<MessageView>);

    open spec fn view(&self) -> (RawHeaderView, Seq<MessageView>) {
        (self.header@, messages_view(self.messages@))
    }
}

/// Clones a list of messages.
pub fn clone_messages(ms: &Vec<EphemeraMessage>) -> (r: Vec<EphemeraMessage>)
    ensures
        messages_view(r@) == messages_view(ms@),
        r@.len() == ms@.len(),
{
    let mut out: Vec<EphemeraMessage> = Vec::new();
    let mut i: usize = 0;
    while i < ms.len()
        invariant
            i <= ms@.len(),
            out@.len() == i,
            forall|j: int| 0 <= j < i ==> out@[j]@ == ms@[j]@,
        decreases ms@.len() - i,
    {
        out.push(ms[i].clone());
        i = i + 1;
    }
    assert(messages_view(out@) =~= messages_view(ms@));
    out
}

impl Clone for BlockHeader {
    fn clone(&self) -> (r: Self)
        ensures
            r@ == self@,
    {
        BlockHeader {
            timestamp: self.timestamp,
            creator: self.creator.clone(),
            height: self.height,
            hash: self.hash,
        }
    }
}

impl Clone for RawBlockHeader {
    fn clone(&self) -> (r: Self)
        ensures
            r@ == self@,
    {
        RawBlockHeader { timestamp: self.timestamp, creator: self.creator.clone(), height: self.height }
    }
}

impl Clone for Block {
    fn clone(&self) -> (r: Self)
        ensures
            r@ == self@,
    {
        Block { header: self.header.clone(), messages: clone_messages(&self.messages) }
    }
}

impl RawBlockHeader {
    /// A header for a block at `height`, stamped with the current time.
    pub fn new(creator: PeerId, height: u64) -> (r: Self)
        ensures
            r.creator@ == creator@,
            r.height == height,
    {
        RawBlockHeader { timestamp: EphemeraTime::now(), creator, height }
    }

    /// The header of a hashed block without the hash.
    pub fn from_header(header: BlockHeader) -> (r: Self)
        ensures
            r@ == header@.0,
    {
        RawBlockHeader { timestamp: header.timestamp, creator: header.creator, height: header.height }
    }

    /// The JSON bytes of the header.
    pub fn encode(&self) -> (r: Vec<u8>)
        ensures
            r@ == raw_header_json(self@),
    {
        let mut out: Vec<u8> = Vec::new();
        self.push_json(&mut out);
        assert(out@ =~= raw_header_json(self@));
        out
    }

    /// Appends the JSON bytes of the header.
    pub fn push_json(&self, out: &mut Vec<u8>)
        ensures
            final(out)@ == old(out)@ + raw_header_json(self@),
    {
        let ghost start = out@;
        out.push(0x7b);
        push_key(out, "timestamp");
        push_decimal(out, self.timestamp);
        out.push(0x2c);
        push_key(out, "creator");
        push_json_bytes(out, self.creator.0.as_slice());
        out.push(0x2c);
        push_key(out, "height");
        push_decimal(out, self.height);
        out.push(0x7d);
        assert(out@ =~= start + raw_header_json(self@));
    }
}

impl BlockHeader {
    /// Attaches the block hash to a raw header.
    pub fn new(raw_header: RawBlockHeader, hash: HashType) -> (r: Self)
        ensures
            r@.0 == raw_header@,
            r.hash == hash,
    {
        BlockHeader {
            timestamp: raw_header.timestamp,
            creator: raw_header.creator,
            height: raw_header.height,
            hash,
        }
    }
}

/// Appends the JSON of each message, separated by commas.
fn push_message_list(out: &mut Vec<u8>, ms: &Vec<EphemeraMessage>)
    ensures
        final(out)@ == old(out)@ + message_list_json(messages_view(ms@)),
{
    let ghost start = out@;
    let mut i: usize = 0;
    while i < ms.len()
        invariant
            i <= ms@.len(),
            out@ == start + message_list_json(messages_view(ms@.take(i as int))),
        decreases ms@.len() - i,
    {
        if i > 0 {
            out.push(0x2c);
        }
        let enc = ms[i].encode();
        push_json_bytes_raw(out, &enc);
        proof {
            let t = messages_view(ms@.take(i + 1));
            assert(t.drop_last() =~= messages_view(ms@.take(i as int)));
            assert(t.last() == ms@[i as int]@);
            if i == 0 {
                assert(messages_view(ms@.take(0)) =~= Seq::<MessageView>::empty());
            }
        }
        assert(out@ =~= start + message_list_json(messages_view(ms@.take(i + 1))));
        i = i + 1;
    }
    assert(ms@.take(ms@.len() as int) =~= ms@);
}

/// Appends the bytes of `v`.
fn push_json_bytes_raw(out: &mut Vec<u8>, v: &Vec<u8>)
    ensures
        final(out)@ == old(out)@ + v@,
{
    crate::encoding::push_bytes(out, v.as_slice());
}

/// The bytes that are hashed for a block: the header JSON and then each message's JSON.
fn hash_input(header: &RawBlockHeader, ms: &Vec<EphemeraMessage>) -> (r: Vec<u8>)
    ensures
        r@ == raw_header_json(header@) + message_concat_json(messages_view(ms@)),
{
    let mut out: Vec<u8> = Vec::new();
    header.push_json(&mut out);
    let ghost start = out@;
    let mut i: usize = 0;
    while i < ms.len()
        invariant
            i <= ms@.len(),
            start == raw_header_json(header@),
            out@ == start + message_concat_json(messages_view(ms@.take(i as int))),
        decreases ms@.len() - i,
    {
        let enc = ms[i].encode();
        push_json_bytes_raw(&mut out, &enc);
        proof {
            let t = messages_view(ms@.take(i + 1));
            assert(t.drop_last() =~= messages_view(ms@.take(i as int)));
            assert(t.last() == ms@[i as int]@);
        }
        assert(out@ =~= start + message_concat_json(messages_view(ms@.take(i + 1))));
        i = i + 1;
    }
    assert(ms@.take(ms@.len() as int) =~= ms@);
    out
}

/// The JSON bytes of a raw block.
fn raw_block_encode(header: &RawBlockHeader, ms: &Vec<EphemeraMessage>) -> (r: Vec<u8>)
    ensures
        r@ == raw_block_json(header@, messages_view(ms@)),
{
    let mut out: Vec<u8> = Vec::new();
    out.push(0x7b);
    push_key(&mut out, "header");
    header.push_json(&mut out);
    out.push(0x2c);
    push_key(&mut out, "messages");
    out.push(0x5b);
    push_message_list(&mut out, ms);
    out.push(0x5d);
    out.push(0x7d);
    assert(out@ =~= raw_block_json(header@, messages_view(ms@)));
    out
}

impl RawBlock {
    pub fn new(header: RawBlockHeader, messages: Vec<EphemeraMessage>) -> (r: Self)
        ensures
            r@ == (header@, messages_view(messages@)),
            r.messages@ == messages@,
    {
        RawBlock { header, messages }
    }

    /// The block without its hash.
    pub fn from_block(block: Block) -> (r: Self)
        ensures
            r@ == (block@.header, block@.messages),
    {
        RawBlock { header: RawBlockHeader::from_header(block.header), messages: block.messages }
    }

    /// The JSON bytes of the block.
    pub fn encode(&self) -> (r: Vec<u8>)
        ensures
            r@ == raw_block_json(self@.0, self@.1),
    {
        raw_block_encode(&self.header, &self.messages)
    }

    /// The hash of the block.
    pub fn hash_with_default_hasher(&self) -> (r: HashType)
        ensures
            r@ == raw_block_hash(self@.0, self@.1),
            r@ == blake2b256(raw_header_json(self@.0) + message_concat_json(self@.1)),
    {
        let bytes = hash_input(&self.header, &self.messages);
        HashType::digest(bytes.as_slice())
    }
}

impl Block {
    /// Attaches `block_hash` to a raw block.
    pub fn new(raw_block: RawBlock, block_hash: HashType) -> (r: Self)
        ensures
            r@.header == raw_block@.0,
            r@.messages == raw_block@.1,
            r.header.hash == block_hash,
            r.messages@ == raw_block.messages@,
    {
        let header = BlockHeader::new(raw_block.header, block_hash);
        Block { header, messages: raw_block.messages }
    }

    pub fn get_hash(&self) -> (r: HashType)
        ensures
            r == self.header.hash,
    {
        self.header.hash
    }

    pub fn get_height(&self) -> (r: u64)
        ensures
            r == self.header.height,
    {
        self.header.height
    }

    /// The first block of a node: height 0, hash of 32 zero bytes, no messages.
    pub fn new_genesis_block(creator: PeerId) -> (r: Self)
        ensures
            r@.header.creator == creator@,
            r@.header.height == 0,
            r@.hash == Seq::new(32, |i: int| 0u8),
            r@.messages.len() == 0,
    {
        let hash = HashType([0u8; 32]);
        proof {
            assert(hash@ =~= Seq::new(32, |i: int| 0u8));
        }
        Block {
            header: BlockHeader { timestamp: EphemeraTime::now(), creator, height: 0, hash },
            messages: Vec::new(),
        }
    }

    /// Signs the JSON of the block without its hash.
    pub fn sign(&self, keypair: &Keypair) -> (r: Certificate)
        requires
            keypair.wf(),
        ensures
            r.public_key@ == keypair.public_bytes(),
            r.signature@ == ed25519_signature(
                keypair.secret_bytes(),
                raw_block_json(self@.header, self@.messages),
            ),
            ed25519_verifies(
                r.public_key@,
                raw_block_json(self@.header, self@.messages),
                r.signature@,
            ),
    {
        let raw = RawBlockHeader {
            timestamp: self.header.timestamp,
            creator: self.header.creator.clone(),
            height: self.header.height,
        };
        let bytes = raw_block_encode(&raw, &self.messages);
        Certificate::prepare_bytes(keypair, bytes.as_slice())
    }

    /// Checks a certificate against the JSON of the block without its hash.
    pub fn verify(&self, certificate: &Certificate) -> (r: bool)
        ensures
            r == ed25519_verifies(
                certificate.public_key@,
                raw_block_json(self@.header, self@.messages),
                certificate.signature@,
            ),
    {
        let raw = RawBlockHeader {
            timestamp: self.header.timestamp,
            creator: self.header.creator.clone(),
            height: self.header.height,
        };
        let bytes = raw_block_encode(&raw, &self.messages);
        certificate.verify_bytes(bytes.as_slice())
    }

    /// The hash computed from the block's header and messages (not the stored hash).
    pub fn hash_with_default_hasher(&self) -> (r: HashType)
        ensures
            r@ == raw_block_hash(self@.header, self@.messages),
            r@ == blake2b256(raw_header_json(self@.header) + message_concat_json(self@.messages)),
    {
        let raw = RawBlockHeader {
            timestamp: self.header.timestamp,
            creator: self.header.creator.clone(),
            height: self.header.height,
        };
        let bytes = hash_input(&raw, &self.messages);
        HashType::digest(bytes.as_slice())
    }
}

} // verus!
