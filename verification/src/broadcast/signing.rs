//! Signing blocks and keeping the verified signatures of recent blocks.

use vstd::prelude::*;
use crate::block::types::block::{raw_block_json, Block};
use crate::cache::put_outcome;
use crate::crypto::{
    ed25519_signature, ed25519_verifies, Certificate, HashBytes, HashType, Keypair,
};
use lru::LruCache;
use std::collections::hash_map::RandomState;

verus! {

/// The cache of verified certificates, by block hash.
pub type SignatureCache = LruCache<HashBytes, Vec<Certificate>, RandomState>;

/// The certificate lists held by a signature cache, by block hash.
pub uninterp spec fn signature_cache_entries(c: SignatureCache) -> Map<Seq<u8>, Vec<Certificate>>;

/// The capacity that a signature cache was made with.
pub uninterp spec fn signature_cache_capacity(c: SignatureCache) -> nat;

/// No entries at all.
pub open spec fn no_signatures() -> Map<Seq<u8>, Vec<Certificate>> {
    Map::empty()
}

/// `LruCache::with_hasher` with capacity `cap` and std's `RandomState`: an empty cache.
#[verifier::external_body]
fn signature_cache_new(cap: usize) -> (r: SignatureCache)
    requires
        cap > 0,
    ensures
        signature_cache_entries(r) == no_signatures(),
        signature_cache_capacity(r) == cap,
        signature_cache_entries(r).dom().finite(),
{
    match std::num::NonZeroUsize::new(cap) {
        Some(c) => LruCache::with_hasher(c, RandomState::new()),
        None => LruCache::with_hasher(std::num::NonZeroUsize::MIN, RandomState::new()),
    }
}

/// `LruCache::put`: replaces the value of a present key (returning the old value), or
/// inserts a new key, dropping one present entry when the cache is full.
#[verifier::external_body]
fn signature_cache_put(c: &mut SignatureCache, k: HashBytes, v: Vec<Certificate>) -> (r: Option<
    Vec<Certificate>,
>)
    ensures
        put_outcome(
            signature_cache_entries(*old(c)),
            signature_cache_entries(*final(c)),
            signature_cache_capacity(*old(c)),
            k@,
            v,
        ),
        signature_cache_capacity(*final(c)) == signature_cache_capacity(*old(c)),
        signature_cache_entries(*final(c)).dom().finite(),
        signature_cache_entries(*final(c)).len() <= signature_cache_capacity(*final(c)),
        signature_cache_entries(*old(c)).contains_key(k@) ==> r == Some(
            signature_cache_entries(*old(c))[k@],
        ),
        !signature_cache_entries(*old(c)).contains_key(k@) ==> r is None,
{
    c.put(k, v)
}

/// `LruCache::pop`: removes the key and returns its value.
#[verifier::external_body]
fn signature_cache_pop(c: &mut SignatureCache, k: &HashBytes) -> (r: Option<Vec<Certificate>>)
    ensures
        signature_cache_entries(*final(c)) == signature_cache_entries(*old(c)).remove(k@),
        signature_cache_capacity(*final(c)) == signature_cache_capacity(*old(c)),
        signature_cache_entries(*final(c)).dom().finite(),
        signature_cache_entries(*final(c)).len() <= signature_cache_capacity(*final(c)),
        signature_cache_entries(*old(c)).contains_key(k@) ==> r == Some(
            signature_cache_entries(*old(c))[k@],
        ),
        !signature_cache_entries(*old(c)).contains_key(k@) ==> r is None,
{
    c.pop(k)
}

/// How many blocks the signer keeps certificates for.
pub const SIGNATURE_CACHE_CAPACITY: usize = 1000;

/// The views of a list of certificates.
pub open spec fn certificate_views(v: Seq<Certificate>) -> Seq<(Seq<u8>, Seq<u8>)> {
    v.map_values(|c: Certificate| c@)
}

/// A set of certificates held as a list without repetitions: `s` with `c` added.
pub open spec fn with_certificate(s: Seq<(Seq<u8>, Seq<u8>)>, c: (Seq<u8>, Seq<u8>)) -> Seq<
    (Seq<u8>, Seq<u8>),
> {
    if s.contains(c) {
        s
    } else {
        s.push(c)
    }
}

/// Why a block signature is refused.
#[derive(Debug, PartialEq, Eq, Structural)]
pub enum BlockSignatureError {
    /// The certificate does not sign the block.
    InvalidSignature,
}

/// Whether two certificates hold the same bytes.
fn same_certificate(a: &Certificate, b: &Certificate) -> (r: bool)
    ensures
        r == (a@ == b@),
{
    a.signature.0.as_slice().len() == b.signature.0.as_slice().len() && crate::bytes::bytes_eq(
        a.signature.0.as_slice(),
        b.signature.0.as_slice(),
    ) && crate::bytes::bytes_eq(a.public_key.0.as_slice(), b.public_key.0.as_slice())
}

/// Whether the list holds a certificate with the same bytes as `c`.
fn contains_certificate(v: &Vec<Certificate>, c: &Certificate) -> (r: bool)
    ensures
        r == certificate_views(v@).contains(c@),
{
    let mut i: usize = 0;
    while i < v.len()
        invariant
            i <= v@.len(),
            forall|j: int| 0 <= j < i ==> v@[j]@ != c@,
        decreases v@.len() - i,
    {
        if same_certificate(&v[i], c) {
            assert(certificate_views(v@)[i as int] == c@);
            return true;
        }
        i = i + 1;
    }
    assert forall|k: int| 0 <= k < certificate_views(v@).len() implies certificate_views(v@)[k]
        != c@ by {
        assert(certificate_views(v@)[k] == v@[k]@);
    }
    false
}

/// Clones a list of certificates.
fn clone_certificates(v: &Vec<Certificate>) -> (r: Vec<Certificate>)
    ensures
        certificate_views(r@) == certificate_views(v@),
{
    let mut out: Vec<Certificate> = Vec::new();
    let mut i: usize = 0;
    while i < v.len()
        invariant
            i <= v@.len(),
            out@.len() == i,
            forall|j: int| 0 <= j < i ==> out@[j]@ == v@[j]@,
        decreases v@.len() - i,
    {
        out.push(v[i].clone());
        i = i + 1;
    }
    assert(certificate_views(out@) =~= certificate_views(v@));
    out
}

/// Signs blocks with the node's key and remembers verified certificates of recent blocks.
pub struct BlockSigner {
    /// Certificates of the last blocks received from the network (and our own).
    verified_signatures: SignatureCache,
    /// Our own keypair.
    signing_keypair: Keypair,
}

impl BlockSigner {
    /// The known certificates, by block hash.
    pub closed spec fn signatures(&self) -> Map<Seq<u8>, Seq<(Seq<u8>, Seq<u8>)>> {
        signature_cache_entries(self.verified_signatures).map_values(
            |v: Vec<Certificate>| certificate_views(v@),
        )
    }

    /// The signing keypair.
    pub closed spec fn keypair(&self) -> Keypair {
        self.signing_keypair
    }

    pub closed spec fn wf(&self) -> bool {
        &&& self.signing_keypair.wf()
        &&& signature_cache_capacity(self.verified_signatures) == SIGNATURE_CACHE_CAPACITY
        &&& signature_cache_entries(self.verified_signatures).dom().finite()
        &&& signature_cache_entries(self.verified_signatures).len() <= SIGNATURE_CACHE_CAPACITY
    }

    /// A signer with no known certificates.
    pub fn new(keypair: Keypair) -> (r: Self)
        requires
            keypair.wf(),
        ensures
            r.wf(),
            r.keypair() == keypair,
            r.signatures() == Map::<Seq<u8>, Seq<(Seq<u8>, Seq<u8>)>>::empty(),
    {
        let r = BlockSigner {
            verified_signatures: signature_cache_new(SIGNATURE_CACHE_CAPACITY),
            signing_keypair: keypair,
        };
        assert(r.signatures() =~= Map::<Seq<u8>, Seq<(Seq<u8>, Seq<u8>)>>::empty());
        r
    }

    /// A copy of the known certificates of the block with hash `block_id`.
    pub fn get_block_signatures(&mut self, block_id: &HashType) -> (r: Option<Vec<Certificate>>)
        requires
            old(self).wf(),
        ensures
            final(self).wf(),
            final(self).keypair() == old(self).keypair(),
            final(self).signatures() == old(self).signatures(),
            r matches Some(v) ==> old(self).signatures().contains_key(block_id@)
                && certificate_views(v@) == old(self).signatures()[block_id@],
            r is None <==> !old(self).signatures().contains_key(block_id@),
    {
        let ghost before = signature_cache_entries(self.verified_signatures);
        match signature_cache_pop(&mut self.verified_signatures, &block_id.0) {
            Some(v) => {
                let copy = clone_certificates(&v);
                let _ = signature_cache_put(&mut self.verified_signatures, block_id.0, v);
                proof {
                    assert(signature_cache_entries(self.verified_signatures) =~= before);
                    assert(self.signatures() =~= old(self).signatures());
                }
                Some(copy)
            },
            None => {
                proof {
                    assert(signature_cache_entries(self.verified_signatures) =~= before);
                    assert(self.signatures() =~= old(self).signatures());
                }
                None
            },
        }
    }

    /// Adds `certificate` to the certificates of the block with hash `block_id`.
    fn add_certificate(&mut self, block_id: &HashType, certificate: Certificate)
        requires
            old(self).wf(),
        ensures
            final(self).wf(),
            final(self).keypair() == old(self).keypair(),
            put_outcome(
                old(self).signatures(),
                final(self).signatures(),
                SIGNATURE_CACHE_CAPACITY as nat,
                block_id@,
                with_certificate(
                    if old(self).signatures().contains_key(block_id@) {
                        old(self).signatures()[block_id@]
                    } else {
                        Seq::empty()
                    },
                    certificate@,
                ),
            ),
    {
        let ghost before = signature_cache_entries(self.verified_signatures);
        let ghost cv = certificate@;
        let mut list = match signature_cache_pop(&mut self.verified_signatures, &block_id.0) {
            Some(v) => v,
            None => Vec::new(),
        };
        let ghost l0 = certificate_views(list@);
        proof {
            if !before.contains_key(block_id@) {
                assert(l0 =~= Seq::<(Seq<u8>, Seq<u8>)>::empty());
            }
        }
        if !contains_certificate(&list, &certificate) {
            list.push(certificate);
            assert(certificate_views(list@) =~= l0.push(cv));
        }
        let ghost lv = list;
        let ghost mid = signature_cache_entries(self.verified_signatures);
        let _ = signature_cache_put(&mut self.verified_signatures, block_id.0, list);
        proof {
            let after = signature_cache_entries(self.verified_signatures);
            let new_list = with_certificate(
                if old(self).signatures().contains_key(block_id@) {
                    old(self).signatures()[block_id@]
                } else {
                    Seq::empty()
                },
                cv,
            );
            assert(certificate_views(lv@) == new_list);
            assert(old(self).signatures().dom() =~= before.dom());
            if before.contains_key(block_id@) {
                assert(mid.len() < SIGNATURE_CACHE_CAPACITY) by {
                    assert(mid.dom() =~= before.dom().remove(block_id@));
                }
                assert(after == mid.insert(block_id@, lv));
                assert(after =~= before.insert(block_id@, lv));
                assert(self.signatures() =~= old(self).signatures().insert(block_id@, new_list));
            } else {
                assert(mid =~= before);
                if before.len() < SIGNATURE_CACHE_CAPACITY {
                    assert(after == before.insert(block_id@, lv));
                    assert(self.signatures() =~= old(self).signatures().insert(
                        block_id@,
                        new_list,
                    ));
                } else {
                    let e = choose|e: Seq<u8>| #[trigger]
                        before.contains_key(e) && after == before.remove(e).insert(block_id@, lv);
                    assert(old(self).signatures().contains_key(e));
                    assert(self.signatures() =~= old(self).signatures().remove(e).insert(
                        block_id@,
                        new_list,
                    ));
                    assert(put_outcome(
                        old(self).signatures(),
                        self.signatures(),
                        SIGNATURE_CACHE_CAPACITY as nat,
                        block_id@,
                        new_list,
                    ));
                }
            }
        }
    }

    /// Signs `block` (whose hash is `hash`) and remembers the certificate under `hash`.
    pub fn sign_block(&mut self, block: &Block, hash: &HashType) -> (r: Certificate)
        requires
            old(self).wf(),
        ensures
            final(self).wf(),
            final(self).keypair() == old(self).keypair(),
            r.public_key@ == old(self).keypair().public_bytes(),
            r.signature@ == ed25519_signature(
                old(self).keypair().secret_bytes(),
                raw_block_json(block@.header, block@.messages),
            ),
            put_outcome(
                old(self).signatures(),
                final(self).signatures(),
                SIGNATURE_CACHE_CAPACITY as nat,
                hash@,
                with_certificate(
                    if old(self).signatures().contains_key(hash@) {
                        old(self).signatures()[hash@]
                    } else {
                        Seq::empty()
                    },
                    r@,
                ),
            ),
    {
        let certificate = block.sign(&self.signing_keypair);
        self.add_certificate(hash, certificate.clone());
        certificate
    }

    /// Accepts a certificate exactly when its signature of `block` checks under its
    /// public key; an accepted certificate is remembered under the block's stated hash.
    pub fn verify_block(&mut self, block: &Block, certificate: &Certificate) -> (r: Result<
        (),
        BlockSignatureError,
    >)
        requires
            old(self).wf(),
        ensures
            final(self).wf(),
            final(self).keypair() == old(self).keypair(),
            ({
                let valid = ed25519_verifies(
                    certificate.public_key@,
                    raw_block_json(block@.header, block@.messages),
                    certificate.signature@,
                );
                &&& r is Ok <==> valid
                &&& !valid ==> final(self).signatures() == old(self).signatures()
                &&& valid ==> put_outcome(
                    old(self).signatures(),
                    final(self).signatures(),
                    SIGNATURE_CACHE_CAPACITY as nat,
                    block.header.hash@,
                    with_certificate(
                        if old(self).signatures().contains_key(block.header.hash@) {
                            old(self).signatures()[block.header.hash@]
                        } else {
                            Seq::empty()
                        },
                        certificate@,
                    ),
                )
            }),
    {
        if block.verify(certificate) {
            self.add_certificate(&block.header.hash, certificate.clone());
            Ok(())
        } else {
            Err(BlockSignatureError::InvalidSignature)
        }
    }
}

} // verus!
