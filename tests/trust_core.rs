use doda::crypto::{generate_nonce, CryptoError, CryptoManager, Encryption};
use doda::data::{DataVerification, OsintData};
use doda::identity::{IdentityError, IdentityManager};
use doda::search::SearchEngine;

fn fresh_manager() -> IdentityManager {
    let mut m = IdentityManager::new();
    m.generate_new_identity(Some("analyst".to_string())).unwrap();
    m
}

fn trusted_entry(m: &IdentityManager) -> (String, Vec<u8>) {
    let i = m.identity().unwrap();
    (i.id().clone(), i.public_key().clone())
}

#[test]
fn record_id_is_deterministic() {
    let a = OsintData::new("report body".to_string(), "tip".to_string());
    let b = OsintData::new("report body".to_string(), "other source".to_string());
    let c = OsintData::new("report body!".to_string(), "tip".to_string());
    assert_eq!(a.id, b.id);
    assert_ne!(a.id, c.id);
    assert_eq!(a.id.len(), 64);
}

#[test]
fn record_id_of_empty_content_is_blake3_of_nothing() {
    let r = OsintData::new(String::new(), "tip".to_string());
    assert_eq!(r.id, "af1349b9f5f9a1a6a0404dea36dcc9499bcb25c9adc112b7cc9a93cae41f3262");
    assert!(r.signatures.is_empty());
}

#[test]
fn verification_hash_covers_source() {
    let a = OsintData::new("same".to_string(), "tip".to_string());
    let b = OsintData::new("same".to_string(), "rumour".to_string());
    assert_ne!(a.verification_hash, b.verification_hash);
    assert_ne!(a.verification_hash, a.id);
    assert_eq!(a.compute_hash(), a.verification_hash);
}

#[test]
fn with_timestamp_keeps_time() {
    let r = OsintData::with_timestamp("x".to_string(), "y".to_string(), 1_700_000_000);
    assert_eq!(r.timestamp, 1_700_000_000);
    assert_eq!(r.content, "x");
    assert_eq!(r.source, "y");
}

#[test]
fn recovery_key_round_trip() {
    let m = fresh_manager();
    let key = m.export_recovery_key().unwrap();
    let mut other = IdentityManager::new();
    other.import_identity(&key).unwrap();
    let a = m.identity().unwrap();
    let b = other.identity().unwrap();
    assert_eq!(a.public_key(), b.public_key());
    assert_eq!(a.id(), b.id());
    assert_eq!(b.name(), &None);
    assert!(b.known_peers().is_empty());
    assert_eq!(a.name(), &Some("analyst".to_string()));
}

#[test]
fn recover_elsewhere_keeps_fingerprint() {
    let m = fresh_manager();
    let copy = m.recover_elsewhere().unwrap();
    assert_eq!(copy.identity().unwrap().id(), m.identity().unwrap().id());
    assert!(matches!(IdentityManager::new().recover_elsewhere(), Err(IdentityError::NoIdentityLoaded)));
}

#[test]
fn export_without_identity_fails() {
    let m = IdentityManager::new();
    assert_eq!(m.export_recovery_key(), Err(IdentityError::NoIdentityLoaded));
    assert_eq!(m.key_path(), "user_identity.json");
}

#[test]
fn import_rejects_malformed_text() {
    let mut m = IdentityManager::new();
    assert_eq!(m.import_identity("not base64 !!"), Err(IdentityError::InvalidRecoveryKey));
    assert!(m.identity().is_none());
}

#[test]
fn import_rejects_bytes_that_are_no_key_pair() {
    let mut m = IdentityManager::new();
    assert_eq!(m.import_identity("AAAAAAAA"), Err(IdentityError::KeyDecodingError));
    assert!(m.identity().is_none());
}

#[test]
fn recovery_key_is_base64_text() {
    let m = fresh_manager();
    let key = m.export_recovery_key().unwrap();
    assert_eq!(key.len() % 4, 0);
    assert!(key.chars().all(|c| c.is_ascii_alphanumeric() || c == '+' || c == '/' || c == '='));
}

#[test]
fn signed_record_verifies_with_trusted_signer() {
    let m = fresh_manager();
    let mut r = OsintData::new("leak".to_string(), "tip".to_string());
    let sig = m.sign(&r).unwrap();
    assert_eq!(&sig.peer_id, m.identity().unwrap().id());
    r.add_signature(sig);
    assert!(r.verify_authenticity(&vec![trusted_entry(&m)], 1));
}

#[test]
fn signed_record_fails_without_trust() {
    let m = fresh_manager();
    let mut r = OsintData::new("leak".to_string(), "tip".to_string());
    r.add_signature(m.sign(&r).unwrap());
    assert!(!r.verify_authenticity(&vec![], 1));
}

#[test]
fn quorum_counts_distinct_signers() {
    let a = fresh_manager();
    let b = fresh_manager();
    let mut r = OsintData::new("content".to_string(), "src".to_string());
    r.add_signature(a.sign(&r).unwrap());
    r.add_signature(b.sign(&r).unwrap());
    let trusted = vec![trusted_entry(&a), trusted_entry(&b)];
    assert!(!r.verify_authenticity(&trusted, 3));
    assert!(r.verify_authenticity(&trusted, 2));
}

#[test]
fn duplicate_signer_counts_once() {
    let a = fresh_manager();
    let mut r = OsintData::new("content".to_string(), "src".to_string());
    r.add_signature(a.sign(&r).unwrap());
    r.add_signature(a.sign(&r).unwrap());
    assert_eq!(r.signatures.len(), 2);
    let trusted = vec![trusted_entry(&a)];
    assert!(r.verify_authenticity(&trusted, 1));
    assert!(!r.verify_authenticity(&trusted, 2));
}

#[test]
fn unsigned_record_never_meets_quorum() {
    let a = fresh_manager();
    let r = OsintData::new("content".to_string(), "src".to_string());
    assert!(!r.verify_authenticity(&vec![trusted_entry(&a)], 1));
    assert!(r.verify_authenticity(&vec![trusted_entry(&a)], 0));
}

#[test]
fn tampered_record_fails() {
    let a = fresh_manager();
    let mut r = OsintData::new("content".to_string(), "src".to_string());
    r.add_signature(a.sign(&r).unwrap());
    r.content = "altered".to_string();
    assert!(!r.verify_authenticity(&vec![trusted_entry(&a)], 1));
}

#[test]
fn signature_under_wrong_key_is_ignored() {
    let a = fresh_manager();
    let b = fresh_manager();
    let mut r = OsintData::new("content".to_string(), "src".to_string());
    r.add_signature(a.sign(&r).unwrap());
    let wrong = vec![(a.identity().unwrap().id().clone(), b.identity().unwrap().public_key().clone())];
    assert!(!r.verify_authenticity(&wrong, 1));
}

#[test]
fn scenario_leak_trusted_then_removed() {
    let a = fresh_manager();
    let mut r = OsintData::new("leak-001".to_string(), "tip".to_string());
    let sig = a.sign(&r).unwrap();
    r.add_signature(sig);
    let mut trusted = vec![trusted_entry(&a)];
    assert!(r.verify_authenticity(&trusted, 1));
    trusted.clear();
    assert!(!r.verify_authenticity(&trusted, 1));
}

#[test]
fn known_peers_are_a_set() {
    let mut m = fresh_manager();
    m.trust_peer("peer-a".to_string()).unwrap();
    m.trust_peer("peer-b".to_string()).unwrap();
    m.trust_peer("peer-a".to_string()).unwrap();
    assert_eq!(*m.identity().unwrap().known_peers(), vec!["peer-a".to_string(), "peer-b".to_string()]);
    assert_eq!(IdentityManager::new().trust_peer("x".to_string()), Err(IdentityError::NoIdentityLoaded));
}

#[test]
fn encrypt_decrypt_round_trip() {
    let c = CryptoManager::new().unwrap();
    for p in [&b""[..], b"a", b"some longer payload for transit"] {
        let ct = c.encrypt(p).unwrap();
        assert_eq!(ct.len(), p.len() + 28);
        assert_eq!(c.decrypt(&ct).unwrap(), p.to_vec());
    }
}

#[test]
fn encryption_is_not_identity() {
    let c = CryptoManager::new().unwrap();
    let p = b"plaintext that must not show";
    let ct = c.encrypt(p).unwrap();
    assert_ne!(&ct[12..12 + p.len()], &p[..]);
}

#[test]
fn repeated_encryption_differs() {
    let c = CryptoManager::new().unwrap();
    let a = c.encrypt(b"same").unwrap();
    let b = c.encrypt(b"same").unwrap();
    assert_ne!(a, b);
    assert_ne!(a[..12], b[..12]);
}

#[test]
fn flipped_byte_fails_authentication() {
    let c = CryptoManager::new().unwrap();
    let ct = c.encrypt(b"payload").unwrap();
    for i in 0..ct.len() {
        let mut bad = ct.clone();
        bad[i] ^= 0x01;
        assert_eq!(c.decrypt(&bad), Err(CryptoError::AuthenticationFailure));
    }
}

#[test]
fn other_key_fails_authentication() {
    let c = CryptoManager::new().unwrap();
    let d = CryptoManager::new().unwrap();
    let ct = c.encrypt(b"payload").unwrap();
    assert_eq!(d.decrypt(&ct), Err(CryptoError::AuthenticationFailure));
}

#[test]
fn short_ciphertext_is_malformed() {
    let c = CryptoManager::new().unwrap();
    assert_eq!(c.decrypt(&[0u8; 27]), Err(CryptoError::MalformedInput));
    assert_eq!(c.decrypt(&[]), Err(CryptoError::MalformedInput));
    assert_eq!(c.decrypt(&[0u8; 28]), Err(CryptoError::AuthenticationFailure));
}

#[test]
fn nonce_has_twelve_bytes() {
    let a = generate_nonce().unwrap();
    let b = generate_nonce().unwrap();
    assert_eq!(a.len(), 12);
    assert_ne!(a, b);
}

#[test]
fn tokenize_lowercases_words() {
    assert_eq!(
        SearchEngine::tokenize("Hello  World\tFOO\nbar"),
        vec!["hello".to_string(), "world".to_string(), "foo".to_string(), "bar".to_string()]
    );
    assert!(SearchEngine::tokenize("   ").is_empty());
    let _ = SearchEngine::new();
}

#[test]
fn first_trusted_entry_decides_key() {
    let a = fresh_manager();
    let b = fresh_manager();
    let mut r = OsintData::new("content".to_string(), "src".to_string());
    r.add_signature(a.sign(&r).unwrap());
    let (id, pk) = trusted_entry(&a);
    let wrong_first = vec![(id.clone(), b.identity().unwrap().public_key().clone()), (id.clone(), pk.clone())];
    assert!(!r.verify_authenticity(&wrong_first, 1));
    let right_first = vec![(id.clone(), pk), (id, b.identity().unwrap().public_key().clone())];
    assert!(r.verify_authenticity(&right_first, 1));
}

#[test]
fn untrusted_signer_ignored_among_trusted() {
    let a = fresh_manager();
    let b = fresh_manager();
    let mut r = OsintData::new("content".to_string(), "src".to_string());
    r.add_signature(b.sign(&r).unwrap());
    r.add_signature(a.sign(&r).unwrap());
    let trusted = vec![trusted_entry(&a)];
    assert!(r.verify_authenticity(&trusted, 1));
    assert!(!r.verify_authenticity(&trusted, 2));
}

#[test]
fn encrypt_succeeds_on_ordinary_data() {
    let c = CryptoManager::new().unwrap();
    let nonce = [7u8; 12];
    let ct = c.seal_with_nonce(&nonce, b"abc").unwrap();
    assert_eq!(&ct[..12], &nonce[..]);
    assert_eq!(ct.len(), 3 + 28);
    assert_eq!(c.decrypt(&ct).unwrap(), b"abc".to_vec());
}
