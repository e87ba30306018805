//! Content records, the signatures that peers attach to them, and quorum
//! verification of those signatures against a set of trusted keys.

use vstd::prelude::*;
use vstd::utf8::encode_utf8;
use crate::primitives::{blake3_hex, blake3_hex_of, ed25519_accepts, ed25519_verify, unix_time_now};

verus! {

/// One peer's signature over a record's verification hash.
#[derive(Debug, Clone)]
pub struct Signature {
    pub peer_id: String,
    /// Seconds since the Unix epoch at signing.
    pub timestamp: u64,
    pub signature: Vec<u8>,
}

/// Mathematical value of a [`Signature`].
pub struct SignatureView {
    pub peer_id: Seq<char>,
    pub timestamp: u64,
    pub signature: Seq<u8>,
}

impl View for Signature {
    type V = SignatureView;

    open spec fn view(&self) -> SignatureView {
        SignatureView { peer_id: self.peer_id@, timestamp: self.timestamp, signature: self.signature@ }
    }
}

/// One piece of intelligence content with its provenance and signatures.
#[derive(Debug, Clone)]
pub struct OsintData {
    pub id: String,
    pub content: String,
    pub source: String,
    /// Seconds since the Unix epoch at creation.
    pub timestamp: u64,
    pub verification_hash: String,
    pub signatures: Vec<Signature>,
}

/// A record's fields but its signatures.
pub struct RecordFields {
    pub id: Seq<char>,
    pub content: Seq<char>,
    pub source: Seq<char>,
    pub timestamp: u64,
    pub verification_hash: Seq<char>,
}

/// Fingerprint of some content: the hex BLAKE3 digest of its UTF-8 bytes.
pub open spec fn content_id(content: Seq<char>) -> Seq<char> {
    blake3_hex(encode_utf8(content))
}

/// The bytes that a record's verification hash covers: the content's
/// fingerprint (64 hex digits, so the boundary is fixed) followed by the
/// source label.
pub open spec fn canonical_message(content: Seq<char>, source: Seq<char>) -> Seq<u8> {
    encode_utf8(content_id(content)) + encode_utf8(source)
}

/// Verification hash of a record with the given content and source.
pub open spec fn record_hash(content: Seq<char>, source: Seq<char>) -> Seq<char> {
    blake3_hex(canonical_message(content, source))
}

/// The bytes that a signature over a verification hash signs.
pub open spec fn signed_message(verification_hash: Seq<char>) -> Seq<u8> {
    encode_utf8(verification_hash)
}

/// Public key that `trusted` gives a fingerprint: that of its first entry
/// for the fingerprint.
pub open spec fn trusted_key(trusted: Seq<(Seq<char>, Seq<u8>)>, peer: Seq<char>) -> Option<Seq<u8>>
    decreases trusted.len(),
{
    if trusted.len() == 0 {
        None
    } else if trusted[0].0 == peer {
        Some(trusted[0].1)
    } else {
        trusted_key(trusted.drop_first(), peer)
    }
}

/// Whether a signature comes from a trusted peer and verifies under its key.
pub open spec fn signature_checks(msg: Seq<u8>, trusted: Seq<(Seq<char>, Seq<u8>)>, s: SignatureView) -> bool {
    match trusted_key(trusted, s.peer_id) {
        Some(pk) => ed25519_accepts(pk, msg, s.signature),
        None => false,
    }
}

/// Fingerprints of the trusted peers with at least one signature in `sigs`
/// that verifies over `msg`.
pub open spec fn verified_signers(
    msg: Seq<u8>,
    sigs: Seq<SignatureView>,
    trusted: Seq<(Seq<char>, Seq<u8>)>,
) -> Set<Seq<char>>
    decreases sigs.len(),
{
    if sigs.len() == 0 {
        Set::empty()
    } else {
        let rest = verified_signers(msg, sigs.drop_last(), trusted);
        if signature_checks(msg, trusted, sigs.last()) {
            rest.insert(sigs.last().peer_id)
        } else {
            rest
        }
    }
}

/// Views of a list of signatures.
pub open spec fn signature_views(sigs: Seq<Signature>) -> Seq<SignatureView> {
    sigs.map_values(|s: Signature| s@)
}

/// A record is authentic for `trusted` and `quorum` when its stored
/// verification hash is the one its current fields give, and at least
/// `quorum` distinct trusted peers signed that hash.
pub open spec fn authentic(
    fields: RecordFields,
    sigs: Seq<SignatureView>,
    trusted: Seq<(Seq<char>, Seq<u8>)>,
    quorum: nat,
) -> bool {
    &&& fields.verification_hash == record_hash(fields.content, fields.source)
    &&& verified_signers(signed_message(fields.verification_hash), sigs, trusted).len() >= quorum
}

/// The verified signers of any signature list form a finite set.
pub proof fn lemma_verified_signers_finite(msg: Seq<u8>, sigs: Seq<SignatureView>, trusted: Seq<(Seq<char>, Seq<u8>)>)
    ensures
        verified_signers(msg, sigs, trusted).finite(),
    decreases sigs.len(),
{
    if sigs.len() > 0 {
        lemma_verified_signers_finite(msg, sigs.drop_last(), trusted);
    }
}

/// A signature that checks puts its signer among the verified signers.
pub proof fn lemma_checked_signer_counts(
    msg: Seq<u8>,
    sigs: Seq<SignatureView>,
    trusted: Seq<(Seq<char>, Seq<u8>)>,
    k: int,
)
    requires
        0 <= k < sigs.len(),
        signature_checks(msg, trusted, sigs[k]),
    ensures
        verified_signers(msg, sigs, trusted).contains(sigs[k].peer_id),
    decreases sigs.len(),
{
    if k < sigs.len() - 1 {
        assert(sigs.drop_last()[k] == sigs[k]);
        lemma_checked_signer_counts(msg, sigs.drop_last(), trusted, k);
    }
}

/// With no trusted key, no signer is verified.
pub proof fn lemma_no_trusted_keys(msg: Seq<u8>, sigs: Seq<SignatureView>, trusted: Seq<(Seq<char>, Seq<u8>)>)
    requires
        trusted.len() == 0,
    ensures
        verified_signers(msg, sigs, trusted) == Set::<Seq<char>>::empty(),
    decreases sigs.len(),
{
    if sigs.len() > 0 {
        lemma_no_trusted_keys(msg, sigs.drop_last(), trusted);
    }
}

/// Records built from the same content carry the same id.
pub proof fn lemma_id_determined_by_content(a: RecordFields, b: RecordFields)
    requires
        a.id == content_id(a.content),
        b.id == content_id(b.content),
        a.content == b.content,
    ensures
        a.id == b.id,
{
}

/// An untampered record that holds a valid signature from a trusted peer is
/// authentic at quorum one.
pub proof fn lemma_trusted_signature_authentic(
    fields: RecordFields,
    sigs: Seq<SignatureView>,
    trusted: Seq<(Seq<char>, Seq<u8>)>,
    k: int,
)
    requires
        fields.verification_hash == record_hash(fields.content, fields.source),
        0 <= k < sigs.len(),
        trusted_key(trusted, sigs[k].peer_id) matches Some(pk)
            && ed25519_accepts(pk, signed_message(fields.verification_hash), sigs[k].signature),
    ensures
        authentic(fields, sigs, trusted, 1),
{
    let msg = signed_message(fields.verification_hash);
    lemma_checked_signer_counts(msg, sigs, trusted, k);
    lemma_verified_signers_finite(msg, sigs, trusted);
    let set = verified_signers(msg, sigs, trusted);
    assert(set.remove(sigs[k].peer_id).len() == set.len() - 1);
}

/// Without trusted keys no record is authentic at a positive quorum, however
/// valid its signatures.
pub proof fn lemma_untrusted_not_authentic(
    fields: RecordFields,
    sigs: Seq<SignatureView>,
    quorum: nat,
)
    requires
        quorum >= 1,
    ensures
        !authentic(fields, sigs, Seq::<(Seq<char>, Seq<u8>)>::empty(), quorum),
{
    lemma_no_trusted_keys(signed_message(fields.verification_hash), sigs, Seq::<(Seq<char>, Seq<u8>)>::empty());
}

/// An untampered record with two valid signatures from two distinct trusted
/// peers is authentic at quorum two and not at quorum three.
pub proof fn lemma_two_signers_quorum(
    fields: RecordFields,
    sigs: Seq<SignatureView>,
    trusted: Seq<(Seq<char>, Seq<u8>)>,
)
    requires
        fields.verification_hash == record_hash(fields.content, fields.source),
        sigs.len() == 2,
        sigs[0].peer_id != sigs[1].peer_id,
        signature_checks(signed_message(fields.verification_hash), trusted, sigs[0]),
        signature_checks(signed_message(fields.verification_hash), trusted, sigs[1]),
    ensures
        authentic(fields, sigs, trusted, 2),
        !authentic(fields, sigs, trusted, 3),
{
    let msg = signed_message(fields.verification_hash);
    let first = sigs.drop_last();
    assert(first.drop_last().len() == 0);
    assert(first.last() == sigs[0]);
    assert(sigs.last() == sigs[1]);
    assert(verified_signers(msg, first.drop_last(), trusted) == Set::<Seq<char>>::empty());
    assert(verified_signers(msg, first, trusted) == Set::<Seq<char>>::empty().insert(sigs[0].peer_id));
    let set = verified_signers(msg, sigs, trusted);
    assert(set == Set::<Seq<char>>::empty().insert(sigs[0].peer_id).insert(sigs[1].peer_id));
    assert(Set::<Seq<char>>::empty().insert(sigs[0].peer_id).len() == 1);
}

/// Checking and accumulating signatures on a record.
pub trait DataVerification {
    /// The record's fields but its signatures.
    spec fn spec_fields(&self) -> RecordFields;

    /// The record's signatures, first signer first.
    spec fn spec_signatures(&self) -> Seq<SignatureView>;

    /// Whether the record is authentic for the trusted keys and quorum.
    spec fn spec_authentic(&self, trusted_keys: Seq<(Seq<char>, Seq<u8>)>, quorum: nat) -> bool;

    /// The hash that the record's current fields give.
    spec fn spec_hash(&self) -> Seq<char>;

    /// Checks the record against a mapping from fingerprint to public key
    /// and a minimum number of distinct trusted signers.
    fn verify_authenticity(&self, trusted_keys: &Vec<(String, Vec<u8>)>, quorum: usize) -> (r: bool)
        ensures
            r == self.spec_authentic(trusted_keys.deep_view(), quorum as nat),
    ;

    /// Appends a signature without checking it.
    fn add_signature(&mut self, signature: Signature)
        ensures
            final(self).spec_signatures() == old(self).spec_signatures().push(signature@),
            final(self).spec_fields() == old(self).spec_fields(),
    ;

    /// Recomputes the verification hash from the record's fields.
    fn compute_hash(&self) -> (r: String)
        ensures
            r@ == self.spec_hash(),
    ;
}

/// Hex BLAKE3 digest of the canonical message of a content and a source.
fn hash_fields(content: &String, source: &String) -> (r: String)
    ensures
        r@ == record_hash(content@, source@),
{
    let id = blake3_hex_of(content.as_str().as_bytes());
    let id_bytes = id.as_str().as_bytes();
    let src = source.as_str().as_bytes();
    let mut msg: Vec<u8> = Vec::new();
    let mut i: usize = 0;
    while i < id_bytes.len()
        invariant
            i <= id_bytes@.len(),
            msg@ == id_bytes@.take(i as int),
        decreases id_bytes@.len() - i,
    {
        msg.push(id_bytes[i]);
        i += 1;
        assert(msg@ =~= id_bytes@.take(i as int));
    }
    let mut j: usize = 0;
    while j < src.len()
        invariant
            j <= src@.len(),
            id_bytes@.len() == i,
            msg@ == id_bytes@ + src@.take(j as int),
        decreases src@.len() - j,
    {
        msg.push(src[j]);
        j += 1;
        assert(msg@ =~= id_bytes@ + src@.take(j as int));
    }
    assert(id_bytes@.take(i as int) =~= id_bytes@);
    assert(src@.take(j as int) =~= src@);
    blake3_hex_of(msg.as_slice())
}

/// Key that `trusted_keys` gives `peer`, by its first entry for it.
fn lookup_key<'a>(trusted_keys: &'a Vec<(String, Vec<u8>)>, peer: &String) -> (r: Option<&'a Vec<u8>>)
    ensures
        r matches Some(k) ==> trusted_key(trusted_keys.deep_view(), peer@) == Some(k@),
        r is None ==> trusted_key(trusted_keys.deep_view(), peer@) is None,
{
    let ghost t = trusted_keys.deep_view();
    assert(t.subrange(0, t.len() as int) =~= t);
    let mut i: usize = 0;
    while i < trusted_keys.len()
        invariant
            t == trusted_keys.deep_view(),
            i <= t.len(),
            trusted_key(t, peer@) == trusted_key(t.subrange(i as int, t.len() as int), peer@),
        decreases t.len() - i,
    {
        let ghost tail = t.subrange(i as int, t.len() as int);
        assert(tail.drop_first() =~= t.subrange(i + 1, t.len() as int));
        if trusted_keys[i].0 == *peer {
            return Some(&trusted_keys[i].1);
        }
        i += 1;
    }
    None
}

/// Whether `peer` is among `seen`.
fn contains_peer(seen: &Vec<String>, peer: &String) -> (r: bool)
    ensures
        r == seen.deep_view().contains(peer@),
{
    let mut i: usize = 0;
    while i < seen.len()
        invariant
            i <= seen@.len(),
            forall|j: int| 0 <= j < i ==> seen.deep_view()[j] != peer@,
        decreases seen@.len() - i,
    {
        if seen[i] == *peer {
            assert(seen.deep_view()[i as int] == peer@);
            return true;
        }
        i += 1;
    }
    false
}

impl OsintData {
    /// A record of `content` and `source` stamped with the given time.
    pub fn with_timestamp(content: String, source: String, timestamp: u64) -> (r: Self)
        ensures
            r.id@ == content_id(content@),
            r.content@ == content@,
            r.source@ == source@,
            r.timestamp == timestamp,
            r.verification_hash@ == record_hash(content@, source@),
            r.signatures@.len() == 0,
    {
        let id = blake3_hex_of(content.as_str().as_bytes());
        let verification_hash = hash_fields(&content, &source);
        OsintData { id, content, source, timestamp, verification_hash, signatures: Vec::new() }
    }

    /// A record of `content` and `source` stamped with the current time.
    pub fn new(content: String, source: String) -> (r: Self)
        ensures
            r.id@ == content_id(content@),
            r.content@ == content@,
            r.source@ == source@,
            r.verification_hash@ == record_hash(content@, source@),
            r.signatures@.len() == 0,
    {
        Self::with_timestamp(content, source, unix_time_now())
    }
}

impl DataVerification for OsintData {
    open spec fn spec_fields(&self) -> RecordFields {
        RecordFields {
            id: self.id@,
            content: self.content@,
            source: self.source@,
            timestamp: self.timestamp,
            verification_hash: self.verification_hash@,
        }
    }

    open spec fn spec_signatures(&self) -> Seq<SignatureView> {
        signature_views(self.signatures@)
    }

    open spec fn spec_authentic(&self, trusted_keys: Seq<(Seq<char>, Seq<u8>)>, quorum: nat) -> bool {
        authentic(self.spec_fields(), self.spec_signatures(), trusted_keys, quorum)
    }

    open spec fn spec_hash(&self) -> Seq<char> {
        record_hash(self.content@, self.source@)
    }

    fn verify_authenticity(&self, trusted_keys: &Vec<(String, Vec<u8>)>, quorum: usize) -> (r: bool) {
        let recomputed = self.compute_hash();
        if !(recomputed == self.verification_hash) {
            return false;
        }
        let msg = self.verification_hash.as_str().as_bytes();
        let ghost sigs = self.spec_signatures();
        let ghost t = trusted_keys.deep_view();
        let mut seen: Vec<String> = Vec::new();
        let mut i: usize = 0;
        while i < self.signatures.len()
            invariant
                sigs == self.spec_signatures(),
                t == trusted_keys.deep_view(),
                msg@ == signed_message(self.verification_hash@),
                i <= sigs.len(),
                seen.deep_view().no_duplicates(),
                seen.deep_view().to_set() == verified_signers(msg@, sigs.take(i as int), t),
            decreases sigs.len() - i,
        {
            let s = &self.signatures[i];
            let ghost prev = seen.deep_view();
            assert(sigs.take(i + 1).drop_last() =~= sigs.take(i as int));
            assert(sigs.take(i + 1).last() == s@);
            if !contains_peer(&seen, &s.peer_id) {
                match lookup_key(trusted_keys, &s.peer_id) {
                    Some(pk) => {
                        if ed25519_verify(pk.as_slice(), msg, s.signature.as_slice()) {
                            seen.push(s.peer_id.clone());
                            assert(seen.deep_view() =~= prev.push(s.peer_id@));
                            proof {
                                prev.lemma_push_to_set_commute(s.peer_id@);
                            }
                        }
                    },
                    None => {},
                }
            } else {
                assert(prev.to_set().contains(s.peer_id@));
                assert(prev.to_set().insert(s.peer_id@) =~= prev.to_set());
            }
            i += 1;
        }
        assert(sigs.take(i as int) =~= sigs);
        proof {
            seen.deep_view().unique_seq_to_set();
        }
        seen.len() >= quorum
    }

    fn add_signature(&mut self, signature: Signature) {
        self.signatures.push(signature);
        assert(signature_views(self.signatures@) =~= signature_views(old(self).signatures@).push(signature@));
    }

    fn compute_hash(&self) -> (r: String) {
        hash_fields(&self.content, &self.source)
    }
}

} // verus!
