//! The cryptographic and encoding primitives that the trust core calls:
//! BLAKE3, base64, Ed25519 and ChaCha20-Poly1305, and the system clock.
//! Each is stated over a name for what it computes.

use vstd::prelude::*;
use base64::Engine as _;
use ring::rand::SecureRandom as _;
use ring::signature::KeyPair as _;

verus! {

/// Lower-case hexadecimal BLAKE3 digest of some bytes.
pub uninterp spec fn blake3_hex(data: Seq<u8>) -> Seq<char>;

/// The character of a 6-bit value in the standard base64 alphabet.
pub open spec fn base64_digit(v: int) -> char {
    "ABCDEFGHIJKLMNOPQRSTUVWXYZabcdefghijklmnopqrstuvwxyz0123456789+/"@[v]
}

/// Standard base64 text of some bytes (RFC 4648, section 4): each group of
/// three bytes gives four digits, and a last group of one or two bytes is
/// padded with `=` to four characters.
pub open spec fn base64_text(data: Seq<u8>) -> Seq<char>
    decreases data.len(),
{
    if data.len() == 0 {
        Seq::empty()
    } else {
        let b0 = data[0] as int;
        let b1 = if data.len() > 1 { data[1] as int } else { 0 };
        let b2 = if data.len() > 2 { data[2] as int } else { 0 };
        let c0 = base64_digit(b0 / 4);
        let c1 = base64_digit((b0 % 4) * 16 + b1 / 16);
        let c2 = base64_digit((b1 % 16) * 4 + b2 / 64);
        let c3 = base64_digit(b2 % 64);
        if data.len() == 1 {
            seq![c0, c1, '=', '=']
        } else if data.len() == 2 {
            seq![c0, c1, c2, '=']
        } else {
            seq![c0, c1, c2, c3] + base64_text(data.skip(3))
        }
    }
}

/// Public key held by an Ed25519 PKCS#8 v2 document, or `None` where the
/// document is not a consistent key pair.
pub uninterp spec fn ed25519_public(pkcs8: Seq<u8>) -> Option<Seq<u8>>;

/// Whether `sig` is a valid Ed25519 signature of `msg` under `public_key`.
pub uninterp spec fn ed25519_accepts(public_key: Seq<u8>, msg: Seq<u8>, sig: Seq<u8>) -> bool;

/// ChaCha20-Poly1305 opening (empty associated data) of `sealed` under a
/// 32-byte key and a 12-byte nonce: the plaintext, or `None` where the tag
/// does not match.
pub uninterp spec fn aead_open(key: Seq<u8>, nonce: Seq<u8>, sealed: Seq<u8>) -> Option<Seq<u8>>;

/// Words of a text, as `str::split_whitespace` yields them.
pub uninterp spec fn whitespace_words(text: Seq<char>) -> Seq<Seq<char>>;

/// Lower-case form of a text, as `str::to_lowercase` gives it.
pub uninterp spec fn lower_of(text: Seq<char>) -> Seq<char>;

/// Length of a ChaCha20-Poly1305 key.
pub const KEY_LEN: usize = 32;

/// Length of a ChaCha20-Poly1305 nonce.
pub const NONCE_LEN: usize = 12;

/// Length of a ChaCha20-Poly1305 tag.
pub const TAG_LEN: usize = 16;

/// Longest plaintext that ChaCha20-Poly1305 seals (RFC 8439, section 2.8).
pub const MAX_SEAL_LEN: u64 = 274_877_906_880;

/// Relies on `blake3::hash` and the `Display` of `blake3::Hash`, which writes
/// the 32-byte digest as 64 lower-case hex digits.
#[verifier::external_body]
pub(crate) fn blake3_hex_of(data: &[u8]) -> (r: String)
    ensures
        r@ == blake3_hex(data@),
        r@.len() == 64,
{
    blake3::hash(data).to_string()
}

/// Relies on `base64::engine::general_purpose::STANDARD.encode`.
#[verifier::external_body]
pub(crate) fn base64_encode(data: &[u8]) -> (r: String)
    ensures
        r@ == base64_text(data@),
{
    base64::engine::general_purpose::STANDARD.encode(data)
}

/// Relies on `base64::engine::general_purpose::STANDARD.decode`, whose
/// configuration requires canonical padding and rejects trailing bits: it
/// accepts exactly the texts that `encode` writes, and returns their bytes.
#[verifier::external_body]
pub(crate) fn base64_decode(text: &str) -> (r: Option<Vec<u8>>)
    ensures
        r matches Some(v) ==> base64_text(v@) == text@,
        r matches Some(v) ==> forall|b: Seq<u8>| #[trigger] base64_text(b) == text@ ==> b == v@,
        r is None ==> forall|b: Seq<u8>| #[trigger] base64_text(b) != text@,
{
    base64::engine::general_purpose::STANDARD.decode(text).ok()
}

/// Relies on `ring::signature::Ed25519KeyPair::generate_pkcs8` with the
/// system random source: it writes a PKCS#8 v2 document that
/// `Ed25519KeyPair::from_pkcs8` accepts.
#[verifier::external_body]
pub(crate) fn ed25519_generate_pkcs8() -> (r: Option<Vec<u8>>)
    ensures
        r matches Some(k) ==> ed25519_public(k@) is Some,
{
    let rng = ring::rand::SystemRandom::new();
    ring::signature::Ed25519KeyPair::generate_pkcs8(&rng).ok().map(|d| d.as_ref().to_vec())
}

/// Relies on `ring::signature::Ed25519KeyPair::from_pkcs8`, and the public key
/// of the pair that it builds.
#[verifier::external_body]
pub(crate) fn ed25519_public_key(pkcs8: &[u8]) -> (r: Option<Vec<u8>>)
    ensures
        r matches Some(p) ==> ed25519_public(pkcs8@) == Some(p@),
        r is None <==> ed25519_public(pkcs8@) is None,
{
    ring::signature::Ed25519KeyPair::from_pkcs8(pkcs8).ok().map(|kp| kp.public_key().as_ref().to_vec())
}

/// Relies on `ring::signature::Ed25519KeyPair::sign` for the pair that
/// `from_pkcs8` builds: a signature that verifies under the pair's public key.
#[verifier::external_body]
pub(crate) fn ed25519_sign(pkcs8: &[u8], msg: &[u8]) -> (r: Option<Vec<u8>>)
    ensures
        r is Some <==> ed25519_public(pkcs8@) is Some,
        r matches Some(s) ==> ed25519_accepts(ed25519_public(pkcs8@)->0, msg@, s@),
{
    ring::signature::Ed25519KeyPair::from_pkcs8(pkcs8).ok().map(|kp| kp.sign(msg).as_ref().to_vec())
}

/// Relies on `ring::signature::UnparsedPublicKey::verify` with the `ED25519`
/// algorithm.
#[verifier::external_body]
pub(crate) fn ed25519_verify(public_key: &[u8], msg: &[u8], sig: &[u8]) -> (r: bool)
    ensures
        r == ed25519_accepts(public_key@, msg@, sig@),
{
    ring::signature::UnparsedPublicKey::new(&ring::signature::ED25519, public_key).verify(msg, sig).is_ok()
}

/// Relies on `ring::rand::SystemRandom::fill`: on success every byte of the
/// buffer has been drawn.
#[verifier::external_body]
pub(crate) fn random_bytes(len: usize) -> (r: Option<Vec<u8>>)
    ensures
        r matches Some(v) ==> v@.len() == len,
{
    let mut buf = vec![0u8; len];
    ring::rand::SystemRandom::new().fill(&mut buf).ok().map(|_| buf)
}

/// Relies on `ring::aead::LessSafeKey::seal_in_place_append_tag` with
/// `CHACHA20_POLY1305` and empty associated data: the ciphertext is as long as
/// the plaintext, followed by the tag, and opening it gives the plaintext back.
/// It fails only on a plaintext longer than the algorithm's limit; with a key
/// and a nonce of the right lengths the key and nonce conversions succeed.
#[verifier::external_body]
pub(crate) fn aead_seal(key: &[u8], nonce: &[u8], plaintext: &[u8]) -> (r: Option<Vec<u8>>)
    requires
        key@.len() == KEY_LEN,
        nonce@.len() == NONCE_LEN,
    ensures
        r matches Some(c) ==> c@.len() == plaintext@.len() + TAG_LEN && aead_open(key@, nonce@, c@) == Some(plaintext@),
        plaintext@.len() <= MAX_SEAL_LEN ==> r is Some,
{
    let k = ring::aead::LessSafeKey::new(ring::aead::UnboundKey::new(&ring::aead::CHACHA20_POLY1305, key).ok()?);
    let n = ring::aead::Nonce::try_assume_unique_for_key(nonce).ok()?;
    let mut buf = plaintext.to_vec();
    k.seal_in_place_append_tag(n, ring::aead::Aad::empty(), &mut buf).ok().map(|_| buf)
}

/// Relies on `ring::aead::LessSafeKey::open_in_place` with
/// `CHACHA20_POLY1305` and empty associated data.
#[verifier::external_body]
pub(crate) fn aead_open_bytes(key: &[u8], nonce: &[u8], sealed: &[u8]) -> (r: Option<Vec<u8>>)
    requires
        key@.len() == KEY_LEN,
        nonce@.len() == NONCE_LEN,
    ensures
        r matches Some(p) ==> aead_open(key@, nonce@, sealed@) == Some(p@),
        r is None <==> aead_open(key@, nonce@, sealed@) is None,
{
    let k = ring::aead::LessSafeKey::new(ring::aead::UnboundKey::new(&ring::aead::CHACHA20_POLY1305, key).ok()?);
    let n = ring::aead::Nonce::try_assume_unique_for_key(nonce).ok()?;
    let mut buf = sealed.to_vec();
    k.open_in_place(n, ring::aead::Aad::empty(), &mut buf).ok().map(|p| p.to_vec())
}

/// Relies on `std::time::SystemTime::now`: seconds since the Unix epoch, or
/// zero for a clock set before it.
#[verifier::external_body]
pub(crate) fn unix_time_now() -> (r: u64) {
    std::time::SystemTime::now().duration_since(std::time::UNIX_EPOCH).map(|d| d.as_secs()).unwrap_or(0)
}

/// Relies on `str::split_whitespace`.
#[verifier::external_body]
pub(crate) fn split_words(text: &str) -> (r: Vec<String>)
    ensures
        r.deep_view() == whitespace_words(text@),
{
    text.split_whitespace().map(|w| w.to_string()).collect()
}

/// Relies on `str::to_lowercase`: the result depends on the characters alone.
#[verifier::external_body]
pub(crate) fn lowercase(text: &str) -> (r: String)
    ensures
        r@ == lower_of(text@),
{
    text.to_lowercase()
}

} // verus!
