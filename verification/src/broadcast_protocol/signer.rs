//! Signing the payloads of broadcasts: every node signs the payload of a broadcast it
//! takes part in and collects the signatures of the others.  When the broadcast is
//! committed, the payload and its signatures are handed out (to be stored and sent to
//! WebSocket clients).  Signatures of other nodes are not checked here.
//!
//! The payload that travels with the PREPARE messages is a [`SignatureRequest`]: the
//! client's payload and the signature of the node that sent it, encoded as JSON
//! ([`SignatureRequest::encode`]).  Reading such bytes back into a request is left to
//! the caller.

use vstd::prelude::*;
use crate::bytes::clone_bytes;
use crate::crypto::{ed25519_signature, Ed25519KeyPair, KeyPair};
use crate::hex::hex_text;
use crate::block::types::message::utf8;
use crate::encoding::{json_bytes, json_key, json_string, push_json_bytes, push_json_string, push_key};
use vstd::string::StringSliceAdditionalSpecFns;

verus! {

/// A payload and the signature of the node that sends it.
#[derive(Debug, PartialEq, Eq)]
pub struct SignatureRequest {
    pub payload: Vec<u8>,
    /// Hex text of the signature.
    pub signature: String,
}

/// `{"payload":[..],"signature":".."}`
pub open spec fn signature_request_json(payload: Seq<u8>, signature: Seq<char>) -> Seq<u8> {
    seq![0x7bu8] + json_key("payload".spec_bytes()) + json_bytes(payload) + seq![0x2cu8]
        + json_key("signature".spec_bytes()) + json_string(utf8(signature)) + seq![0x7du8]
}

impl SignatureRequest {
    /// The JSON bytes of the request, as they travel with a PREPARE.
    pub fn encode(&self) -> (r: Vec<u8>)
        ensures
            r@ == signature_request_json(self.payload@, self.signature@),
    {
        let mut out: Vec<u8> = Vec::new();
        out.push(0x7b);
        push_key(&mut out, "payload");
        push_json_bytes(&mut out, self.payload.as_slice());
        out.push(0x2c);
        push_key(&mut out, "signature");
        push_json_string(&mut out, self.signature.as_str().as_bytes());
        out.push(0x7d);
        assert(out@ =~= signature_request_json(self.payload@, self.signature@));
        out
    }
}

/// The signature of one node.
#[derive(Debug, PartialEq, Eq)]
pub struct Signature {
    /// The node.
    pub id: String,
    /// Hex text of its signature.
    pub signature: String,
}

impl Clone for Signature {
    fn clone(&self) -> (r: Self)
        ensures
            r.id@ == self.id@,
            r.signature@ == self.signature@,
    {
        Signature { id: self.id.clone(), signature: self.signature.clone() }
    }
}

/// The signatures of a list, by node.
pub open spec fn signature_map(s: Seq<Signature>) -> Map<Seq<char>, Seq<char>>
    decreases s.len(),
{
    if s.len() == 0 {
        Map::empty()
    } else {
        signature_map(s.drop_last()).insert(s.last().id@, s.last().signature@)
    }
}

/// No node occurs twice in a list of signatures.
pub open spec fn unique_ids(s: Seq<Signature>) -> bool {
    forall|i: int, j: int| 0 <= i < j < s.len() ==> #[trigger] s[i].id@ != #[trigger] s[j].id@
}

/// A payload with the signatures collected for it.
#[derive(Debug, PartialEq, Eq)]
pub struct SignedConsensusMessage {
    /// The broadcast.
    pub request_id: String,
    pub message: Vec<u8>,
    /// At most one signature per node.
    pub signatures: Vec<Signature>,
}

impl SignedConsensusMessage {
    /// The signatures by node.
    pub open spec fn signatures_view(&self) -> Map<Seq<char>, Seq<char>> {
        signature_map(self.signatures@)
    }

    pub open spec fn wf(&self) -> bool {
        unique_ids(self.signatures@)
    }
}

/// The signature map of a list is the map of its front plus its last entry.
proof fn lemma_signature_map_lookup(s: Seq<Signature>, i: int)
    requires
        unique_ids(s),
        0 <= i < s.len(),
    ensures
        signature_map(s).contains_key(s[i].id@),
        signature_map(s)[s[i].id@] == s[i].signature@,
    decreases s.len(),
{
    if i < s.len() - 1 {
        let f = s.drop_last();
        assert(f[i] == s[i]);
        assert(unique_ids(f));
        lemma_signature_map_lookup(f, i);
        assert(s.last().id@ != s[i].id@);
    }
}

/// A node is in the map of a list exactly when it occurs in the list.
proof fn lemma_signature_map_domain(s: Seq<Signature>, id: Seq<char>)
    ensures
        signature_map(s).contains_key(id) <==> exists|i: int| 0 <= i < s.len() && #[trigger] s[i].id@ == id,
    decreases s.len(),
{
    if s.len() > 0 {
        let f = s.drop_last();
        lemma_signature_map_domain(f, id);
        if signature_map(s).contains_key(id) && s.last().id@ != id {
            let i = choose|i: int| 0 <= i < f.len() && #[trigger] f[i].id@ == id;
            assert(s[i] == f[i]);
        }
        if exists|i: int| 0 <= i < s.len() && #[trigger] s[i].id@ == id {
            let i = choose|i: int| 0 <= i < s.len() && #[trigger] s[i].id@ == id;
            if i < s.len() - 1 {
                assert(f[i] == s[i]);
            }
        }
    }
}

/// Replacing the signature of a node that occurs in the list.
proof fn lemma_signature_map_update(s: Seq<Signature>, i: int, sig: Signature)
    requires
        unique_ids(s),
        0 <= i < s.len(),
        sig.id@ == s[i].id@,
    ensures
        unique_ids(s.update(i, sig)),
        signature_map(s.update(i, sig)) == signature_map(s).insert(sig.id@, sig.signature@),
    decreases s.len(),
{
    let t = s.update(i, sig);
    assert forall|a: int, b: int| 0 <= a < b < t.len() implies #[trigger] t[a].id@ != #[trigger] t[b].id@ by {
        assert(s[a].id@ != s[b].id@);
    }
    if i == s.len() - 1 {
        assert(t.drop_last() =~= s.drop_last());
        assert(signature_map(s.drop_last()).insert(sig.id@, sig.signature@) =~= signature_map(s).insert(sig.id@, sig.signature@));
    } else {
        let f = s.drop_last();
        assert(f[i] == s[i]);
        assert(unique_ids(f));
        lemma_signature_map_update(f, i, sig);
        assert(t.drop_last() =~= f.update(i, sig));
        assert(s.last().id@ != sig.id@);
        assert(signature_map(t) =~= signature_map(s).insert(sig.id@, sig.signature@));
    }
}

/// Sets the signature of a node (replacing its earlier one, if any).
pub fn insert_signature(signatures: &mut Vec<Signature>, sig: Signature)
    requires
        unique_ids(old(signatures)@),
    ensures
        unique_ids(final(signatures)@),
        signature_map(final(signatures)@) == signature_map(old(signatures)@).insert(
            sig.id@,
            sig.signature@,
        ),
{
    let mut i: usize = 0;
    while i < signatures.len()
        invariant
            i <= signatures@.len(),
            signatures@ == old(signatures)@,
            unique_ids(old(signatures)@),
            forall|j: int| 0 <= j < i ==> signatures@[j].id@ != sig.id@,
        decreases signatures@.len() - i,
    {
        if signatures[i].id == sig.id {
            proof {
                lemma_signature_map_update(signatures@, i as int, sig);
            }
            signatures.set(i, sig);
            return;
        }
        i = i + 1;
    }
    proof {
        let s = signatures@;
        let t = s.push(sig);
        assert forall|a: int, b: int| 0 <= a < b < t.len() implies #[trigger] t[a].id@ != #[trigger] t[b].id@ by {
            if b == s.len() {
                assert(t[a] == s[a]);
            } else {
                assert(t[a] == s[a] && t[b] == s[b]);
            }
        }
        assert(t.drop_last() =~= s);
    }
    signatures.push(sig);
}

/// Whether a node signed.
pub fn has_signature(signatures: &Vec<Signature>, id: &String) -> (r: bool)
    ensures
        r == signature_map(signatures@).contains_key(id@),
{
    proof {
        lemma_signature_map_domain(signatures@, id@);
    }
    let mut i: usize = 0;
    while i < signatures.len()
        invariant
            i <= signatures@.len(),
            forall|j: int| 0 <= j < i ==> signatures@[j].id@ != id@,
        decreases signatures@.len() - i,
    {
        if signatures[i].id == *id {
            proof {
                lemma_signature_map_domain(signatures@, id@);
                assert(signatures@[i as int].id@ == id@);
            }
            return true;
        }
        i = i + 1;
    }
    false
}

/// The signer: its key and the broadcasts it collects signatures for.
pub struct Signer {
    pub keypair: Ed25519KeyPair,
    /// At most one per broadcast.
    pub requests: Vec<SignedConsensusMessage>,
}

impl Signer {
    /// No broadcast occurs twice and each request holds at most one signature per node.
    pub open spec fn wf(&self) -> bool {
        &&& forall|i: int, j: int|
            0 <= i < j < self.requests@.len() ==> #[trigger] self.requests@[i].request_id@
                != #[trigger] self.requests@[j].request_id@
        &&& forall|i: int| 0 <= i < self.requests@.len() ==> #[trigger] self.requests@[i].wf()
    }

    pub fn new(keypair: Ed25519KeyPair) -> (r: Self)
        ensures
            r.wf(),
            r.requests@.len() == 0,
    {
        Signer { keypair, requests: Vec::new() }
    }

    /// The index of the request of broadcast `id`.
    fn find(&self, id: &String) -> (r: Option<usize>)
        ensures
            r matches Some(i) ==> i < self.requests@.len() && self.requests@[i as int].request_id@
                == id@,
            r is None ==> forall|j: int| 0 <= j < self.requests@.len() ==> #[trigger] self.requests@[j].request_id@ != id@,
    {
        let mut i: usize = 0;
        while i < self.requests.len()
            invariant
                i <= self.requests@.len(),
                forall|j: int| 0 <= j < i ==> #[trigger] self.requests@[j].request_id@ != id@,
            decreases self.requests@.len() - i,
        {
            if self.requests[i].request_id == *id {
                return Some(i);
            }
            i = i + 1;
        }
        None
    }

    /// Whether this node collects signatures for broadcast `id`.
    pub fn has_request(&self, id: &String) -> (r: bool)
        ensures
            r == exists|j: int| 0 <= j < self.requests@.len() && #[trigger] self.requests@[j].request_id@ == id@,
    {
        match self.find(id) {
            Some(i) => {
                assert(self.requests@[i as int].request_id@ == id@);
                true
            },
            None => false,
        }
    }

    /// A client's message arrived here (as `local_address`): unless this node already
    /// collects signatures for the broadcast, it signs the message, records its own
    /// signature, and sends the message on with its signature.
    pub fn pre_prepare(&mut self, msg_id: String, message: Vec<u8>, local_address: String) -> (r:
        Option<SignatureRequest>)
        requires
            old(self).wf(),
        ensures
            final(self).wf(),
            (exists|j: int| 0 <= j < old(self).requests@.len() && #[trigger] old(self).requests@[j].request_id@ == msg_id@) ==> r is None
                && final(self).requests@ == old(self).requests@,
            !(exists|j: int| 0 <= j < old(self).requests@.len() && #[trigger] old(self).requests@[j].request_id@ == msg_id@) ==> (r matches Some(q)
                && q.payload@ == message@ && q.signature@ == hex_text(
                ed25519_signature(old(self).keypair.0.secret_bytes(), message@),
            ) && final(self).requests@.len() == old(self).requests@.len() + 1 && final(self).requests@.last().request_id@ == msg_id@
                && final(self).requests@.last().message@ == message@
                && final(self).requests@.last().signatures_view() == Map::<Seq<char>, Seq<char>>::empty().insert(local_address@, q.signature@)
                && final(self).requests@.drop_last() == old(self).requests@),
    {
        if self.has_request(&msg_id) {
            return None;
        }
        let signature = match self.keypair.sign_hex(message.as_slice()) {
            Ok(s) => s,
            Err(_) => String::new(),
        };
        let mut signatures: Vec<Signature> = Vec::new();
        insert_signature(&mut signatures, Signature { id: local_address, signature: signature.clone() });
        let request = SignedConsensusMessage {
            request_id: msg_id,
            message: clone_bytes(&message),
            signatures,
        };
        let ghost before = self.requests@;
        self.requests.push(request);
        proof {
            assert(self.requests@.drop_last() =~= before);
            assert forall|i: int, j: int|
                0 <= i < j < self.requests@.len() implies #[trigger] self.requests@[i].request_id@
                    != #[trigger] self.requests@[j].request_id@ by {
                if j == before.len() {
                    assert(self.requests@[i] == before[i]);
                } else {
                    assert(self.requests@[i] == before[i] && self.requests@[j] == before[j]);
                }
            }
            assert forall|i: int| 0 <= i < self.requests@.len() implies #[trigger] self.requests@[i].wf() by {
                if i < before.len() {
                    assert(self.requests@[i] == before[i]);
                }
            }
        }
        Some(SignatureRequest { payload: message, signature })
    }

    /// A PREPARE from `sender` arrived with its signature request: the sender's
    /// signature is recorded (a new request is started with its payload if needed).  A
    /// node that did not receive the message from the client and has not signed yet
    /// signs the payload, records its signature and sends it on.
    pub fn prepare(
        &mut self,
        msg_id: String,
        sender: String,
        request: SignatureRequest,
        original_sender: bool,
        local_address: String,
    ) -> (r: Option<SignatureRequest>)
        requires
            old(self).wf(),
        ensures
            final(self).wf(),
            r matches Some(q) ==> !original_sender && q.payload@ == request.payload@ && q.signature@
                == hex_text(ed25519_signature(old(self).keypair.0.secret_bytes(), request.payload@)),
            original_sender ==> r is None,
            final(self).keypair == old(self).keypair,
            exists|j: int|
                0 <= j < final(self).requests@.len() && #[trigger] final(self).requests@[j].request_id@
                    == msg_id@ && ({
                    let known = j < old(self).requests@.len();
                    let before_sigs = if known {
                        old(self).requests@[j].signatures_view()
                    } else {
                        Map::<Seq<char>, Seq<char>>::empty()
                    };
                    let with_sender = before_sigs.insert(sender@, request.signature@);
                    let signs = !original_sender && !with_sender.contains_key(local_address@);
                    &&& known ==> old(self).requests@[j].request_id@ == msg_id@
                        && final(self).requests@[j].message@ == old(self).requests@[j].message@
                        && final(self).requests@.len() == old(self).requests@.len()
                    &&& !known ==> final(self).requests@.len() == old(self).requests@.len() + 1
                        && final(self).requests@[j].message@ == request.payload@
                        && forall|k: int| 0 <= k < old(self).requests@.len() ==> #[trigger] old(self).requests@[k].request_id@ != msg_id@
                    &&& forall|k: int| 0 <= k < old(self).requests@.len() && k != j ==> #[trigger] final(self).requests@[k] == old(self).requests@[k]
                    &&& signs <==> r is Some
                    &&& signs ==> final(self).requests@[j].signatures_view() == with_sender.insert(local_address@, r->0.signature@)
                    &&& !signs ==> final(self).requests@[j].signatures_view() == with_sender
                }),
    {
        let index = match self.find(&msg_id) {
            Some(i) => i,
            None => {
                let ghost before = self.requests@;
                self.requests.push(
                    SignedConsensusMessage {
                        request_id: msg_id.clone(),
                        message: clone_bytes(&request.payload),
                        signatures: Vec::new(),
                    },
                );
                proof {
                    assert forall|i: int, j: int|
                        0 <= i < j < self.requests@.len() implies #[trigger] self.requests@[i].request_id@
                            != #[trigger] self.requests@[j].request_id@ by {
                        if j == before.len() {
                            assert(self.requests@[i] == before[i]);
                        } else {
                            assert(self.requests@[i] == before[i] && self.requests@[j] == before[j]);
                        }
                    }
                    assert forall|i: int| 0 <= i < self.requests@.len() implies #[trigger] self.requests@[i].wf() by {
                        if i < before.len() {
                            assert(self.requests@[i] == before[i]);
                        }
                    }
                }
                self.requests.len() - 1
            },
        };
        let mut entry = self.take(index);
        insert_signature(&mut entry.signatures, Signature { id: sender, signature: request.signature });
        let mut reply: Option<SignatureRequest> = None;
        if !original_sender && !has_signature(&entry.signatures, &local_address) {
            let payload = request.payload;
            let signature = match self.keypair.sign_hex(payload.as_slice()) {
                Ok(s) => s,
                Err(_) => String::new(),
            };
            insert_signature(
                &mut entry.signatures,
                Signature { id: local_address, signature: signature.clone() },
            );
            reply = Some(SignatureRequest { payload, signature });
        }
        let ghost final_entry = entry;
        self.give_back(index, entry);
        proof {
            assert(self.requests@[index as int] == final_entry);
            assert(self.requests@[index as int].request_id@ == msg_id@);
        }
        reply
    }

    /// Takes the request at `index` out, leaving an empty one in its place.
    fn take(&mut self, index: usize) -> (r: SignedConsensusMessage)
        requires
            old(self).wf(),
            index < old(self).requests@.len(),
        ensures
            r == old(self).requests@[index as int],
            r.wf(),
            final(self).keypair == old(self).keypair,
            final(self).requests@.len() == old(self).requests@.len(),
            forall|j: int| 0 <= j < old(self).requests@.len() && j != index ==> #[trigger] final(self).requests@[j] == old(self).requests@[j],
            final(self).requests@[index as int].request_id@ == old(self).requests@[index as int].request_id@,
            final(self).requests@[index as int].signatures@.len() == 0,
    {
        let id = self.requests[index].request_id.clone();
        let placeholder = SignedConsensusMessage { request_id: id, message: Vec::new(), signatures: Vec::new() };
        let mut slot = placeholder;
        std::mem::swap(&mut slot, &mut self.requests[index]);
        slot
    }

    /// Puts a request back at `index`.
    fn give_back(&mut self, index: usize, entry: SignedConsensusMessage)
        requires
            index < old(self).requests@.len(),
            entry.wf(),
            entry.request_id@ == old(self).requests@[index as int].request_id@,
            forall|i: int, j: int|
                0 <= i < j < old(self).requests@.len() ==> #[trigger] old(self).requests@[i].request_id@
                    != #[trigger] old(self).requests@[j].request_id@,
            forall|i: int| 0 <= i < old(self).requests@.len() && i != index ==> #[trigger] old(self).requests@[i].wf(),
        ensures
            final(self).wf(),
            final(self).keypair == old(self).keypair,
            final(self).requests@ == old(self).requests@.update(index as int, entry),
    {
        self.requests.set(index, entry);
        proof {
            assert forall|i: int, j: int|
                0 <= i < j < self.requests@.len() implies #[trigger] self.requests@[i].request_id@
                    != #[trigger] self.requests@[j].request_id@ by {
                assert(self.requests@[i].request_id@ == old(self).requests@[i].request_id@);
                assert(self.requests@[j].request_id@ == old(self).requests@[j].request_id@);
            }
        }
    }

    /// The broadcast `id` was committed: its request leaves the signer and is handed
    /// out with the signatures collected.
    pub fn committed(&mut self, id: &String) -> (r: Option<SignedConsensusMessage>)
        requires
            old(self).wf(),
        ensures
            final(self).wf(),
            r matches Some(m) ==> m.request_id@ == id@ && (exists|j: int| 0 <= j < old(self).requests@.len() && #[trigger] old(self).requests@[j] == m),
            r is None <==> !(exists|j: int| 0 <= j < old(self).requests@.len() && #[trigger] old(self).requests@[j].request_id@ == id@),
            forall|j: int| 0 <= j < final(self).requests@.len() ==> #[trigger] final(self).requests@[j].request_id@ != id@,
            final(self).keypair == old(self).keypair,
            r is Some ==> exists|i: int|
                0 <= i < old(self).requests@.len() && #[trigger] old(self).requests@[i].request_id@
                    == id@ && r == Some(old(self).requests@[i]) && final(self).requests@ == old(
                    self,
                ).requests@.remove(i),
            r is None ==> final(self).requests@ == old(self).requests@,
    {
        match self.find(id) {
            Some(i) => {
                let ghost before = self.requests@;
                let m = self.requests.remove(i);
                proof {
                    assert(before[i as int] == m);
                    assert(self.requests@ == before.remove(i as int));
                    assert forall|a: int, b: int|
                        0 <= a < b < self.requests@.len() implies #[trigger] self.requests@[a].request_id@
                            != #[trigger] self.requests@[b].request_id@ by {
                        let a0 = if a < i { a } else { a + 1 };
                        let b0 = if b < i { b } else { b + 1 };
                        assert(self.requests@[a] == before[a0]);
                        assert(self.requests@[b] == before[b0]);
                    }
                    assert forall|a: int| 0 <= a < self.requests@.len() implies #[trigger] self.requests@[a].wf() by {
                        let a0 = if a < i { a } else { a + 1 };
                        assert(self.requests@[a] == before[a0]);
                    }
                    assert forall|j: int| 0 <= j < self.requests@.len() implies #[trigger] self.requests@[j].request_id@ != id@ by {
                        let j0 = if j < i { j } else { j + 1 };
                        assert(self.requests@[j] == before[j0]);
                    }
                }
                Some(m)
            },
            None => None,
        }
    }
}

} // verus!
