//! Peer identities: Ed25519 key material, its fingerprint, recovery keys, and
//! the one identity that a session holds active.
//!
//! The private key lives in memory only. The stored form of an identity
//! leaves it out, so after a restart the recovery key is the one way to sign
//! as the same peer again: import it with `import_identity`.

use vstd::prelude::*;
use crate::data::{signed_message, OsintData, Signature};
use crate::primitives::{
    base64_decode, base64_encode, base64_text, blake3_hex, blake3_hex_of, ed25519_accepts,
    ed25519_generate_pkcs8, ed25519_public, ed25519_public_key, ed25519_sign, unix_time_now,
};

verus! {

/// Fingerprint of a public key: the hex BLAKE3 digest of its bytes.
pub open spec fn fingerprint(public_key: Seq<u8>) -> Seq<char> {
    blake3_hex(public_key)
}

/// Why an identity operation failed.
#[derive(Debug, Clone, Copy, PartialEq, Eq, Structural)]
pub enum IdentityError {
    /// The random source or the key encoding failed.
    KeyGenerationError,
    /// The operation needs an active identity.
    NoIdentityLoaded,
    /// The recovery key is not valid base64 text.
    InvalidRecoveryKey,
    /// The recovery key's bytes are not a consistent Ed25519 key pair.
    KeyDecodingError,
    /// The identity could not be written to durable storage.
    PersistenceError,
}

/// A peer identity: a signing key pair, its fingerprint, an optional label
/// and the fingerprints of the peers it trusts.
#[derive(Debug)]
pub struct UserIdentity {
    id: String,
    public_key: Vec<u8>,
    /// PKCS#8 v2 document of the key pair. It is never part of the stored
    /// form of an identity; only a recovery key carries it elsewhere.
    private_key: Vec<u8>,
    name: Option<String>,
    known_peers: Vec<String>,
}

impl UserIdentity {
    /// The PKCS#8 document of the identity's key pair.
    pub closed spec fn secret(&self) -> Seq<u8> {
        self.private_key@
    }

    /// The fingerprint.
    pub closed spec fn spec_id(&self) -> Seq<char> {
        self.id@
    }

    /// The public key.
    pub closed spec fn spec_public_key(&self) -> Seq<u8> {
        self.public_key@
    }

    /// The optional label.
    pub closed spec fn spec_name(&self) -> Option<String> {
        self.name
    }

    /// Fingerprints of the trusted peers, in the order they were added.
    pub closed spec fn spec_known_peers(&self) -> Seq<Seq<char>> {
        self.known_peers.deep_view()
    }

    /// The public key is the key pair's, the fingerprint is the public key's,
    /// and no trusted peer is listed twice.
    pub open spec fn wf(&self) -> bool {
        &&& ed25519_public(self.secret()) == Some(self.spec_public_key())
        &&& self.spec_id() == fingerprint(self.spec_public_key())
        &&& self.spec_known_peers().no_duplicates()
    }

    /// An identity for a PKCS#8 document, with no trusted peers.
    fn from_pkcs8(pkcs8: Vec<u8>, name: Option<String>) -> (r: Option<Self>)
        ensures
            r is None <==> ed25519_public(pkcs8@) is None,
            r matches Some(i) ==> i.wf() && i.secret() == pkcs8@ && i.spec_name() == name
                && i.spec_known_peers().len() == 0,
    {
        match ed25519_public_key(pkcs8.as_slice()) {
            Some(public_key) => {
                let id = blake3_hex_of(public_key.as_slice());
                let known_peers: Vec<String> = Vec::new();
                assert(known_peers.deep_view() =~= Seq::<Seq<char>>::empty());
                Some(UserIdentity { id, public_key, private_key: pkcs8, name, known_peers })
            },
            None => None,
        }
    }

    /// The fingerprint.
    pub fn id(&self) -> (r: &String)
        ensures
            r@ == self.spec_id(),
    {
        &self.id
    }

    /// The public key.
    pub fn public_key(&self) -> (r: &Vec<u8>)
        ensures
            r@ == self.spec_public_key(),
    {
        &self.public_key
    }

    /// The optional label.
    pub fn name(&self) -> (r: &Option<String>)
        ensures
            *r == self.spec_name(),
    {
        &self.name
    }

    /// Fingerprints of the trusted peers, in the order they were added.
    pub fn known_peers(&self) -> (r: &Vec<String>)
        ensures
            r.deep_view() == self.spec_known_peers(),
    {
        &self.known_peers
    }

    /// Signs a record's verification hash, stamped with the given time.
    pub fn sign_at(&self, record: &OsintData, timestamp: u64) -> (r: Signature)
        requires
            self.wf(),
        ensures
            r.peer_id@ == self.spec_id(),
            r.timestamp == timestamp,
            ed25519_accepts(self.spec_public_key(), signed_message(record.verification_hash@), r.signature@),
    {
        let msg = record.verification_hash.as_str().as_bytes();
        let signature = match ed25519_sign(self.private_key.as_slice(), msg) {
            Some(s) => s,
            None => {
                assert(false);
                Vec::new()
            },
        };
        Signature { peer_id: self.id.clone(), timestamp, signature }
    }

    /// Signs a record's verification hash, stamped with the current time.
    pub fn sign(&self, record: &OsintData) -> (r: Signature)
        requires
            self.wf(),
        ensures
            r.peer_id@ == self.spec_id(),
            ed25519_accepts(self.spec_public_key(), signed_message(record.verification_hash@), r.signature@),
    {
        self.sign_at(record, unix_time_now())
    }

    /// Adds a fingerprint to the trusted peers, unless it is there already.
    pub fn add_known_peer(&mut self, peer: String)
        requires
            old(self).wf(),
        ensures
            final(self).wf(),
            final(self).spec_known_peers().to_set() == old(self).spec_known_peers().to_set().insert(peer@),
            old(self).spec_known_peers().contains(peer@) ==> final(self).spec_known_peers() == old(self).spec_known_peers(),
            !old(self).spec_known_peers().contains(peer@) ==> final(self).spec_known_peers() == old(self).spec_known_peers().push(peer@),
            final(self).spec_id() == old(self).spec_id(),
            final(self).spec_public_key() == old(self).spec_public_key(),
            final(self).secret() == old(self).secret(),
            final(self).spec_name() == old(self).spec_name(),
    {
        let ghost before = self.known_peers.deep_view();
        let mut i: usize = 0;
        while i < self.known_peers.len()
            invariant
                i <= self.known_peers@.len(),
                *self == *old(self),
                old(self).wf(),
                before == self.known_peers.deep_view(),
                forall|j: int| 0 <= j < i ==> before[j] != peer@,
            decreases self.known_peers@.len() - i,
        {
            if self.known_peers[i] == peer {
                assert(before[i as int] == peer@);
                proof {
                    assert(before.to_set().insert(peer@) =~= before.to_set());
                }
                return;
            }
            i += 1;
        }
        assert(!before.contains(peer@));
        self.known_peers.push(peer);
        assert(self.known_peers.deep_view() =~= before.push(peer@));
        proof {
            before.lemma_push_to_set_commute(peer@);
        }
    }
}

/// Holds the session's active identity, if any, and where its public part
/// is stored.
pub struct IdentityManager {
    identity: Option<UserIdentity>,
    key_path: String,
}

impl IdentityManager {
    /// The active identity.
    pub closed spec fn active(&self) -> Option<UserIdentity> {
        self.identity
    }

    /// Where the active identity's public part is stored.
    pub closed spec fn path(&self) -> Seq<char> {
        self.key_path@
    }

    /// The active identity, if any, is well formed.
    pub open spec fn wf(&self) -> bool {
        self.active() matches Some(i) ==> i.wf()
    }

    /// A manager with no active identity.
    pub fn new() -> (r: Self)
        ensures
            r.active() is None,
            r.path() == "user_identity.json"@,
            r.wf(),
    {
        IdentityManager { identity: None, key_path: "user_identity.json".to_owned() }
    }

    /// The active identity.
    pub fn identity(&self) -> (r: Option<&UserIdentity>)
        ensures
            r matches Some(i) ==> self.active() == Some(*i),
            r is None <==> self.active() is None,
    {
        self.identity.as_ref()
    }

    /// Where the active identity's public part is stored.
    pub fn key_path(&self) -> (r: &String)
        ensures
            r@ == self.path(),
    {
        &self.key_path
    }

    /// Makes a fresh key pair the active identity, dropping the previous one.
    pub fn generate_new_identity(&mut self, name: Option<String>) -> (r: Result<(), IdentityError>)
        requires
            old(self).wf(),
        ensures
            final(self).wf(),
            final(self).path() == old(self).path(),
            r is Ok ==> (final(self).active() matches Some(i) && i.spec_name() == name
                && i.spec_known_peers().len() == 0),
            r is Err ==> r == Err::<(), IdentityError>(IdentityError::KeyGenerationError)
                && *final(self) == *old(self),
    {
        match ed25519_generate_pkcs8() {
            Some(pkcs8) => match UserIdentity::from_pkcs8(pkcs8, name) {
                Some(identity) => {
                    self.identity = Some(identity);
                    Ok(())
                },
                None => Err(IdentityError::KeyGenerationError),
            },
            None => Err(IdentityError::KeyGenerationError),
        }
    }

    /// The active identity's key pair as base64 text.
    pub fn export_recovery_key(&self) -> (r: Result<String, IdentityError>)
        ensures
            self.active() matches Some(i) ==> r matches Ok(s) && s@ == base64_text(i.secret()),
            self.active() is None ==> r == Err::<String, IdentityError>(IdentityError::NoIdentityLoaded),
    {
        match &self.identity {
            Some(identity) => Ok(base64_encode(identity.private_key.as_slice())),
            None => Err(IdentityError::NoIdentityLoaded),
        }
    }

    /// Makes the key pair that a recovery key holds the active identity, with
    /// no name and no trusted peers.
    pub fn import_identity(&mut self, recovery_key: &str) -> (r: Result<(), IdentityError>)
        requires
            old(self).wf(),
        ensures
            final(self).wf(),
            final(self).path() == old(self).path(),
            r == Err::<(), IdentityError>(IdentityError::InvalidRecoveryKey)
                <==> forall|b: Seq<u8>| #[trigger] base64_text(b) != recovery_key@,
            r == Err::<(), IdentityError>(IdentityError::KeyDecodingError)
                <==> exists|b: Seq<u8>| #[trigger] base64_text(b) == recovery_key@ && ed25519_public(b) is None,
            r == Err::<(), IdentityError>(IdentityError::KeyDecodingError)
                ==> forall|b: Seq<u8>| #[trigger] base64_text(b) == recovery_key@ ==> ed25519_public(b) is None,
            r is Ok ==> (final(self).active() matches Some(i)
                && base64_text(i.secret()) == recovery_key@
                && (forall|b: Seq<u8>| #[trigger] base64_text(b) == recovery_key@ ==> b == i.secret())
                && i.spec_name() is None
                && i.spec_known_peers().len() == 0),
            r is Err ==> *final(self) == *old(self),
            r is Err ==> r == Err::<(), IdentityError>(IdentityError::InvalidRecoveryKey)
                || r == Err::<(), IdentityError>(IdentityError::KeyDecodingError),
    {
        match base64_decode(recovery_key) {
            Some(pkcs8) => {
                let ghost bytes = pkcs8@;
                match UserIdentity::from_pkcs8(pkcs8, None) {
                    Some(identity) => {
                        self.identity = Some(identity);
                        Ok(())
                    },
                    None => {
                        assert(base64_text(bytes) == recovery_key@ && ed25519_public(bytes) is None);
                        Err(IdentityError::KeyDecodingError)
                    },
                }
            },
            None => Err(IdentityError::InvalidRecoveryKey),
        }
    }

    /// Moves the active identity to a fresh manager through its recovery
    /// key: exporting and importing again restores the same key pair, so the
    /// public key and the fingerprint are unchanged.
    pub fn recover_elsewhere(&self) -> (r: Result<IdentityManager, IdentityError>)
        requires
            self.wf(),
        ensures
            self.active() is None ==> r == Err::<IdentityManager, IdentityError>(IdentityError::NoIdentityLoaded),
            self.active() matches Some(i) ==> (r matches Ok(m) && m.wf() && (m.active() matches Some(j)
                && j.spec_public_key() == i.spec_public_key() && j.spec_id() == i.spec_id() && j.secret() == i.secret()
                && j.spec_name() is None && j.spec_known_peers().len() == 0)),
    {
        let key = self.export_recovery_key()?;
        let mut restored = IdentityManager::new();
        assert(base64_text(self.active()->0.secret()) == key@);
        match restored.import_identity(key.as_str()) {
            Ok(()) => Ok(restored),
            Err(e) => Err(e),
        }
    }

    /// Signs a record with the active identity.
    pub fn sign(&self, record: &OsintData) -> (r: Result<Signature, IdentityError>)
        requires
            self.wf(),
        ensures
            self.active() is None ==> r == Err::<Signature, IdentityError>(IdentityError::NoIdentityLoaded),
            self.active() matches Some(i) ==> r matches Ok(s) && s.peer_id@ == i.spec_id()
                && ed25519_accepts(i.spec_public_key(), signed_message(record.verification_hash@), s.signature@),
    {
        match &self.identity {
            Some(identity) => Ok(identity.sign(record)),
            None => Err(IdentityError::NoIdentityLoaded),
        }
    }

    /// Adds a fingerprint to the active identity's trusted peers.
    pub fn trust_peer(&mut self, peer: String) -> (r: Result<(), IdentityError>)
        requires
            old(self).wf(),
        ensures
            final(self).wf(),
            final(self).path() == old(self).path(),
            old(self).active() is None ==> r == Err::<(), IdentityError>(IdentityError::NoIdentityLoaded)
                && *final(self) == *old(self),
            old(self).active() matches Some(i) ==> r is Ok && (final(self).active() matches Some(j)
                && j.spec_known_peers().to_set() == i.spec_known_peers().to_set().insert(peer@)
                && j.spec_id() == i.spec_id() && j.spec_public_key() == i.spec_public_key() && j.secret() == i.secret() && j.spec_name() == i.spec_name()),
    {
        match &mut self.identity {
            Some(identity) => {
                identity.add_known_peer(peer);
                Ok(())
            },
            None => Err(IdentityError::NoIdentityLoaded),
        }
    }
}

} // verus!
