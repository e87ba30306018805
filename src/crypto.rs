//! Symmetric authenticated encryption of payloads for transit, under a key
//! drawn at construction and independent of any signing identity.

use vstd::prelude::*;
use crate::primitives::{aead_open, aead_open_bytes, aead_seal, random_bytes, KEY_LEN, MAX_SEAL_LEN, NONCE_LEN, TAG_LEN};

verus! {

/// Why a transit cipher operation failed.
#[derive(Debug, Clone, Copy, PartialEq, Eq, Structural)]
pub enum CryptoError {
    /// The random source failed to give a key or a nonce.
    KeyGenerationError,
    /// The ciphertext's tag does not match: it was tampered with or corrupted.
    AuthenticationFailure,
    /// The input is shorter than a nonce and a tag, or too long to seal.
    MalformedInput,
}

/// Bytes that a ciphertext adds to its plaintext: the nonce before it and
/// the tag after it.
pub open spec fn overhead() -> nat {
    (NONCE_LEN + TAG_LEN) as nat
}

/// `ciphertext` is a nonce followed by the sealing of `plaintext` under `key`
/// and that nonce.
pub open spec fn sealed_under(key: Seq<u8>, ciphertext: Seq<u8>, plaintext: Seq<u8>) -> bool {
    &&& ciphertext.len() == plaintext.len() + overhead()
    &&& aead_open(key, ciphertext.take(NONCE_LEN as int), ciphertext.skip(NONCE_LEN as int)) == Some(plaintext)
}

/// What decrypting `ciphertext` under `key` gives.
pub open spec fn decryption(key: Seq<u8>, ciphertext: Seq<u8>) -> Result<Seq<u8>, CryptoError> {
    if ciphertext.len() < overhead() {
        Err(CryptoError::MalformedInput)
    } else {
        match aead_open(key, ciphertext.take(NONCE_LEN as int), ciphertext.skip(NONCE_LEN as int)) {
            Some(p) => Ok(p),
            None => Err(CryptoError::AuthenticationFailure),
        }
    }
}

/// Encryption and decryption of byte payloads.
pub trait Encryption {
    /// The cipher holds a usable key.
    spec fn spec_ready(&self) -> bool;

    /// `ciphertext` is an encryption of `plaintext` under the cipher's key.
    spec fn spec_sealed(&self, ciphertext: Seq<u8>, plaintext: Seq<u8>) -> bool;

    /// What decrypting `ciphertext` gives.
    spec fn spec_decryption(&self, ciphertext: Seq<u8>) -> Result<Seq<u8>, CryptoError>;

    /// Encrypts under a fresh nonce that the output carries. It fails only
    /// when the random source fails, or on data too long to seal.
    fn encrypt(&self, data: &[u8]) -> (r: Result<Vec<u8>, CryptoError>)
        requires
            self.spec_ready(),
        ensures
            r matches Ok(c) ==> self.spec_sealed(c@, data@),
            r matches Err(e) ==> e == CryptoError::KeyGenerationError
                || (e == CryptoError::MalformedInput && data@.len() > MAX_SEAL_LEN),
    ;

    /// Decrypts and checks the tag.
    fn decrypt(&self, encrypted_data: &[u8]) -> (r: Result<Vec<u8>, CryptoError>)
        requires
            self.spec_ready(),
        ensures
            r matches Ok(p) ==> self.spec_decryption(encrypted_data@) == Ok::<Seq<u8>, CryptoError>(p@),
            r matches Err(e) ==> self.spec_decryption(encrypted_data@) == Err::<Seq<u8>, CryptoError>(e),
    ;
}

/// ChaCha20-Poly1305 transit cipher.
pub struct CryptoManager {
    key: Vec<u8>,
}

/// A fresh random nonce.
pub fn generate_nonce() -> (r: Result<Vec<u8>, CryptoError>)
    ensures
        r matches Ok(n) ==> n@.len() == NONCE_LEN,
        r matches Err(e) ==> e == CryptoError::KeyGenerationError,
{
    match random_bytes(NONCE_LEN) {
        Some(n) => Ok(n),
        None => Err(CryptoError::KeyGenerationError),
    }
}

impl CryptoManager {
    /// The cipher's key.
    pub closed spec fn key_bytes(&self) -> Seq<u8> {
        self.key@
    }

    /// Seals `data` under the cipher's key and `nonce`, and puts the nonce
    /// in front.
    pub fn seal_with_nonce(&self, nonce: &[u8], data: &[u8]) -> (r: Result<Vec<u8>, CryptoError>)
        requires
            self.spec_ready(),
            nonce@.len() == NONCE_LEN,
        ensures
            r matches Ok(c) ==> sealed_under(self.key_bytes(), c@, data@) && c@.take(NONCE_LEN as int) == nonce@,
            r is Err ==> data@.len() > MAX_SEAL_LEN,
            r matches Err(e) ==> e == CryptoError::MalformedInput,
    {
        let sealed = match aead_seal(self.key.as_slice(), nonce, data) {
            Some(c) => c,
            None => return Err(CryptoError::MalformedInput),
        };
        let mut out: Vec<u8> = Vec::new();
        let mut k: usize = 0;
        while k < nonce.len()
            invariant
                k <= nonce@.len(),
                out@ == nonce@.take(k as int),
            decreases nonce@.len() - k,
        {
            out.push(nonce[k]);
            k += 1;
            assert(out@ =~= nonce@.take(k as int));
        }
        assert(nonce@.take(k as int) =~= nonce@);
        let mut i: usize = 0;
        while i < sealed.len()
            invariant
                i <= sealed@.len(),
                out@ == nonce@ + sealed@.take(i as int),
            decreases sealed@.len() - i,
        {
            out.push(sealed[i]);
            i += 1;
            assert(out@ =~= nonce@ + sealed@.take(i as int));
        }
        assert(sealed@.take(i as int) =~= sealed@);
        assert(out@.take(NONCE_LEN as int) =~= nonce@);
        assert(out@.skip(NONCE_LEN as int) =~= sealed@);
        Ok(out)
    }

    /// A cipher with a fresh random key.
    pub fn new() -> (r: Result<Self, CryptoError>)
        ensures
            r matches Ok(c) ==> c.spec_ready(),
            r matches Err(e) ==> e == CryptoError::KeyGenerationError,
    {
        match random_bytes(KEY_LEN) {
            Some(key) => Ok(CryptoManager { key }),
            None => Err(CryptoError::KeyGenerationError),
        }
    }
}

impl Encryption for CryptoManager {
    open spec fn spec_ready(&self) -> bool {
        self.key_bytes().len() == KEY_LEN
    }

    open spec fn spec_sealed(&self, ciphertext: Seq<u8>, plaintext: Seq<u8>) -> bool {
        sealed_under(self.key_bytes(), ciphertext, plaintext)
    }

    open spec fn spec_decryption(&self, ciphertext: Seq<u8>) -> Result<Seq<u8>, CryptoError> {
        decryption(self.key_bytes(), ciphertext)
    }

    fn encrypt(&self, data: &[u8]) -> (r: Result<Vec<u8>, CryptoError>) {
        let nonce = generate_nonce()?;
        self.seal_with_nonce(nonce.as_slice(), data)
    }

    fn decrypt(&self, encrypted_data: &[u8]) -> (r: Result<Vec<u8>, CryptoError>) {
        if encrypted_data.len() < NONCE_LEN + TAG_LEN {
            return Err(CryptoError::MalformedInput);
        }
        let (nonce, body) = encrypted_data.split_at(NONCE_LEN);
        assert(nonce@ =~= encrypted_data@.take(NONCE_LEN as int));
        assert(body@ =~= encrypted_data@.skip(NONCE_LEN as int));
        match aead_open_bytes(self.key.as_slice(), nonce, body) {
            Some(p) => Ok(p),
            None => Err(CryptoError::AuthenticationFailure),
        }
    }
}

/// Decrypting what `encrypt` produced gives the plaintext back.
pub proof fn lemma_decrypt_encrypt(key: Seq<u8>, ciphertext: Seq<u8>, plaintext: Seq<u8>)
    requires
        sealed_under(key, ciphertext, plaintext),
    ensures
        decryption(key, ciphertext) == Ok::<Seq<u8>, CryptoError>(plaintext),
{
}

/// Two encryptions under different nonces are different ciphertexts, whatever
/// their plaintexts.
pub proof fn lemma_distinct_nonces(key: Seq<u8>, c1: Seq<u8>, p1: Seq<u8>, c2: Seq<u8>, p2: Seq<u8>)
    requires
        sealed_under(key, c1, p1),
        sealed_under(key, c2, p2),
        c1.take(NONCE_LEN as int) != c2.take(NONCE_LEN as int),
    ensures
        c1 != c2,
{
}

/// A ciphertext whose tag does not check never yields a plaintext: once the
/// opening of an altered ciphertext fails, decryption reports an
/// authentication failure, whatever byte was changed.
pub proof fn lemma_altered_ciphertext_rejected(key: Seq<u8>, c: Seq<u8>, altered: Seq<u8>, p: Seq<u8>)
    requires
        sealed_under(key, c, p),
        altered.len() == c.len(),
        aead_open(key, altered.take(NONCE_LEN as int), altered.skip(NONCE_LEN as int)) is None,
    ensures
        decryption(key, altered) == Err::<Seq<u8>, CryptoError>(CryptoError::AuthenticationFailure),
{
}

} // verus!
