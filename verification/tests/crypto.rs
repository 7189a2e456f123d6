use cybermanju_drive::crypto::browser::{
    blake3_hash, chacha20_generate_key, hmac_sha512, chacha20_decrypt, chacha20_encrypt, chacha20_generate_nonce, hkdf_derive, ml_dsa65_generate_keypair, ml_dsa65_sign,
    ml_dsa65_verify, x25519_generate_keypair, x25519_shared_secret,
};
use cybermanju_drive::crypto::engine::PqcEngine;
use cybermanju_drive::crypto::meta::EncryptedFileMeta;
use cybermanju_drive::crypto::pqc::{
    algorithm_from_str, decrypt_data, encrypt_data, generate_random_nonce, sign_message, verify_signature,
    EncryptionAlgo, KeyPair, PqcError,
};

#[test]
fn test_encryption_algo_nist_levels() {
    assert_eq!(EncryptionAlgo::Kyber1024.nist_level(), 5);
    assert_eq!(EncryptionAlgo::Hybrid.nist_level(), 5);
    assert_eq!(EncryptionAlgo::MlDsa44.nist_level(), 2);
    assert_eq!(EncryptionAlgo::MlDsa65.nist_level(), 3);
    assert_eq!(EncryptionAlgo::MlDsa87.nist_level(), 5);
    assert_eq!(EncryptionAlgo::ClassicalSign.nist_level(), 0);
    assert_eq!(EncryptionAlgo::Aes256.nist_level(), 0);
}

#[test]
fn test_encryption_algo_display_names() {
    assert!(EncryptionAlgo::Kyber1024.display_name().contains("ML-KEM-1024"));
    assert!(EncryptionAlgo::Hybrid.display_name().contains("Hybrid"));
    assert!(EncryptionAlgo::MlDsa44.display_name().contains("ML-DSA-44"));
    assert!(EncryptionAlgo::MlDsa65.display_name().contains("ML-DSA-65"));
    assert!(EncryptionAlgo::MlDsa87.display_name().contains("ML-DSA-87"));
    assert!(EncryptionAlgo::ClassicalSign.display_name().contains("HMAC"));
    assert!(EncryptionAlgo::Aes256.display_name().contains("ChaCha20Poly1305"));
}

#[test]
fn test_encryption_algo_colors() {
    assert_eq!(EncryptionAlgo::Kyber1024.color(), "#00FF41");
    assert_eq!(EncryptionAlgo::Hybrid.color(), "#FFB800");
    assert!(!EncryptionAlgo::MlDsa44.color().is_empty());
    assert!(!EncryptionAlgo::MlDsa65.color().is_empty());
    assert!(!EncryptionAlgo::MlDsa87.color().is_empty());
    assert_eq!(EncryptionAlgo::ClassicalSign.color(), "#00D4FF");
    assert_eq!(EncryptionAlgo::Aes256.color(), "#FF6B2B");
}

#[test]
fn test_encryption_algo_signature_only() {
    assert!(!EncryptionAlgo::Kyber1024.is_signature_only());
    assert!(!EncryptionAlgo::Hybrid.is_signature_only());
    assert!(EncryptionAlgo::MlDsa44.is_signature_only());
    assert!(EncryptionAlgo::MlDsa65.is_signature_only());
    assert!(EncryptionAlgo::MlDsa87.is_signature_only());
    assert!(EncryptionAlgo::ClassicalSign.is_signature_only());
    assert!(!EncryptionAlgo::Aes256.is_signature_only());
}

#[test]
fn test_algorithm_from_str() {
    assert_eq!(algorithm_from_str("kyber1024"), Some(EncryptionAlgo::Kyber1024));
    assert_eq!(algorithm_from_str("hybrid"), Some(EncryptionAlgo::Hybrid));
    assert_eq!(algorithm_from_str("kyber768"), Some(EncryptionAlgo::Hybrid));
    assert_eq!(algorithm_from_str("ml-dsa-44"), Some(EncryptionAlgo::MlDsa44));
    assert_eq!(algorithm_from_str("ml-dsa-65"), Some(EncryptionAlgo::MlDsa65));
    assert_eq!(algorithm_from_str("ml-dsa-87"), Some(EncryptionAlgo::MlDsa87));
    assert_eq!(algorithm_from_str("dilithium2"), Some(EncryptionAlgo::MlDsa44));
    assert_eq!(algorithm_from_str("hmac"), Some(EncryptionAlgo::ClassicalSign));
    assert_eq!(algorithm_from_str("chacha20"), Some(EncryptionAlgo::Aes256));
    assert_eq!(algorithm_from_str("unknown"), None);
}

#[test]
fn test_generate_keypair_aes256() {
    let mut engine = PqcEngine::new();
    let kp = engine.generate_keypair(EncryptionAlgo::Aes256).unwrap();
    assert_eq!(kp.algorithm, EncryptionAlgo::Aes256);
    assert_eq!(kp.public_key.len(), 32);
    assert_eq!(kp.private_key.len(), 32);
    assert!(!kp.id.is_empty());
}

#[test]
fn test_generate_keypair_classical_sign() {
    let mut engine = PqcEngine::new();
    let kp = engine.generate_keypair(EncryptionAlgo::ClassicalSign).unwrap();
    assert_eq!(kp.algorithm, EncryptionAlgo::ClassicalSign);
    assert_eq!(kp.private_key.len(), 64);
    assert_eq!(kp.public_key.len(), 32);
    assert_ne!(kp.public_key, kp.private_key[..32].to_vec());
}

#[test]
fn test_generate_keypair_kyber1024() {
    let mut engine = PqcEngine::new();
    let kp = engine.generate_keypair(EncryptionAlgo::Kyber1024).unwrap();
    assert_eq!(kp.algorithm, EncryptionAlgo::Kyber1024);
    assert_eq!(kp.public_key.len(), 1568);
    assert_eq!(kp.private_key.len(), 3168);
}

#[test]
fn test_generate_keypair_hybrid() {
    let mut engine = PqcEngine::new();
    let kp = engine.generate_keypair(EncryptionAlgo::Hybrid).unwrap();
    assert_eq!(kp.algorithm, EncryptionAlgo::Hybrid);
    assert_eq!(kp.public_key.len(), 1184);
    assert_eq!(kp.private_key.len(), 2400);
}

#[test]
fn test_generate_keypair_mldsdsa44() {
    let mut engine = PqcEngine::new();
    let kp = engine.generate_keypair(EncryptionAlgo::MlDsa44).unwrap();
    assert_eq!(kp.algorithm, EncryptionAlgo::MlDsa44);
    assert!(!kp.public_key.is_empty());
    assert!(!kp.private_key.is_empty());
    assert_eq!(kp.public_key.len(), 1312);
    assert_eq!(kp.private_key.len(), 2560);
}

#[test]
fn test_generate_keypair_mldsdsa65() {
    let mut engine = PqcEngine::new();
    let kp = engine.generate_keypair(EncryptionAlgo::MlDsa65).unwrap();
    assert_eq!(kp.algorithm, EncryptionAlgo::MlDsa65);
    assert!(!kp.public_key.is_empty());
    assert!(!kp.private_key.is_empty());
    assert_eq!(kp.public_key.len(), 1952);
    assert_eq!(kp.private_key.len(), 4032);
}

#[test]
fn test_generate_keypair_mldsdsa87() {
    let mut engine = PqcEngine::new();
    let kp = engine.generate_keypair(EncryptionAlgo::MlDsa87).unwrap();
    assert_eq!(kp.algorithm, EncryptionAlgo::MlDsa87);
    assert!(!kp.public_key.is_empty());
    assert!(!kp.private_key.is_empty());
    assert_eq!(kp.public_key.len(), 2592);
    assert_eq!(kp.private_key.len(), 4896);
}

#[test]
fn test_list_keys_hides_private_keys() {
    let mut engine = PqcEngine::new();
    engine.generate_keypair(EncryptionAlgo::Aes256).unwrap();
    engine.generate_keypair(EncryptionAlgo::Hybrid).unwrap();
    let keys = engine.list_keys();
    assert_eq!(keys.len(), 2);
    for k in &keys {
        assert!(k.has_private_key);
        assert!(k.public_key_preview.len() <= 24);
    }
    assert_eq!(keys[0].algorithm, EncryptionAlgo::Aes256);
    assert_eq!(keys[1].nist_level, 5);
    assert_eq!(keys[1].public_key_bytes, 1184);
}

#[test]
fn test_active_keypair() {
    let mut engine = PqcEngine::new();
    assert!(engine.get_active_keypair().is_none());
    let kp = engine.generate_keypair(EncryptionAlgo::Aes256).unwrap();
    let active = engine.get_active_keypair().unwrap();
    assert_eq!(active.id, kp.id);
    let kp2 = engine.generate_keypair(EncryptionAlgo::Kyber1024).unwrap();
    assert_eq!(engine.get_active_keypair().unwrap().id, kp2.id);
}

#[test]
fn test_encryption_status() {
    let mut engine = PqcEngine::new();
    let status = engine.get_status();
    assert!(!status.is_encrypted);
    assert!(status.key_id.is_none());

    let kp = engine.generate_keypair(EncryptionAlgo::Hybrid).unwrap();
    let status = engine.get_status();
    assert!(status.is_encrypted);
    assert_eq!(status.algorithm.as_deref(), Some("Hybrid ML-KEM-768 + X25519"));
    assert_eq!(status.nist_level, Some(5));
    assert_eq!(status.key_id, Some(kp.id.clone()));
    assert_eq!(status.encrypted_at, Some(kp.created_at.clone()));
}

#[test]
fn test_encrypt_decrypt_aes256() {
    let mut engine = PqcEngine::new();
    let kp = engine.generate_keypair(EncryptionAlgo::Aes256).unwrap();
    let plaintext = b"Hello, quantum-resistant world!";
    let encrypted = encrypt_data(plaintext, &kp).unwrap();
    let decrypted = decrypt_data(&encrypted, &kp).unwrap();
    assert_eq!(plaintext.as_slice(), decrypted.as_slice());
}

#[test]
fn test_encrypt_decrypt_kyber1024() {
    let mut engine = PqcEngine::new();
    let kp = engine.generate_keypair(EncryptionAlgo::Kyber1024).unwrap();
    let plaintext = b"Post-quantum encryption test";
    let encrypted = encrypt_data(plaintext, &kp).unwrap();
    let decrypted = decrypt_data(&encrypted, &kp).unwrap();
    assert_eq!(plaintext.as_slice(), decrypted.as_slice());
}

#[test]
fn test_encrypt_decrypt_hybrid() {
    let mut engine = PqcEngine::new();
    let kp = engine.generate_keypair(EncryptionAlgo::Hybrid).unwrap();
    let plaintext = b"Hybrid encryption test with ML-KEM + X25519";
    let encrypted = encrypt_data(plaintext, &kp).unwrap();
    let decrypted = decrypt_data(&encrypted, &kp).unwrap();
    assert_eq!(plaintext.as_slice(), decrypted.as_slice());
}

#[test]
fn test_encrypt_decrypt_large_data() {
    let mut engine = PqcEngine::new();
    let kp = engine.generate_keypair(EncryptionAlgo::Aes256).unwrap();
    let plaintext = vec![0xABu8; 100000];
    let encrypted = encrypt_data(&plaintext, &kp).unwrap();
    let decrypted = decrypt_data(&encrypted, &kp).unwrap();
    assert_eq!(plaintext, decrypted);
}

#[test]
fn test_encrypted_data_has_metadata() {
    let mut engine = PqcEngine::new();
    let kp = engine.generate_keypair(EncryptionAlgo::Hybrid).unwrap();
    let plaintext = b"metadata test";
    let encrypted = encrypt_data(plaintext, &kp).unwrap();
    assert!(!encrypted.ciphertext.is_empty());
    assert!(!encrypted.nonce.is_empty());
    assert_eq!(encrypted.algorithm, "Hybrid ML-KEM-768 + X25519+ChaCha20Poly1305");
    assert_eq!(encrypted.blake3_original.len(), 64);
    assert!(!encrypted.encrypted_at.is_empty());
    assert_eq!(encrypted.kem_ciphertext.len(), 1088);
    assert_eq!(encrypted.x25519_ephemeral_pk.as_ref().map(|k| k.len()), Some(32));
    assert_eq!(encrypted.key_id, kp.id);
}

#[test]
fn test_encrypted_file_meta_roundtrip() {
    let mut engine = PqcEngine::new();
    let kp = engine.generate_keypair(EncryptionAlgo::Hybrid).unwrap();
    let plaintext = b"meta test";
    let encrypted = encrypt_data(plaintext, &kp).unwrap();
    let meta = EncryptedFileMeta::from_encrypted_data(&encrypted);
    assert_eq!(meta.algorithm, encrypted.algorithm);
    assert_eq!(meta.key_id, encrypted.key_id);
    let restored = meta.to_encrypted_data(encrypted.ciphertext.clone()).unwrap();
    assert_eq!(restored.ciphertext, encrypted.ciphertext);
    assert_eq!(restored.nonce, encrypted.nonce);
    assert_eq!(restored.kem_ciphertext, encrypted.kem_ciphertext);
    assert_eq!(restored.x25519_ephemeral_pk, encrypted.x25519_ephemeral_pk);
    assert_eq!(decrypt_data(&restored, &kp).unwrap(), plaintext.to_vec());
}

#[test]
fn test_meta_rejects_bad_nonce() {
    let meta = EncryptedFileMeta {
        nonce: "AAAA".to_string(),
        algorithm: "x".to_string(),
        key_id: "k".to_string(),
        kem_ciphertext: String::new(),
        x25519_ephemeral_pk: None,
        blake3_original: String::new(),
        encrypted_at: String::new(),
    };
    assert_eq!(meta.to_encrypted_data(vec![]).unwrap_err(), PqcError::InvalidNonceLength(3));
    let bad = EncryptedFileMeta { nonce: "!!".to_string(), ..meta };
    assert_eq!(bad.to_encrypted_data(vec![]).unwrap_err(), PqcError::InvalidBase64);
}

#[test]
fn test_decrypt_tampered_ciphertext_fails() {
    let mut engine = PqcEngine::new();
    let kp = engine.generate_keypair(EncryptionAlgo::Aes256).unwrap();
    let mut encrypted = encrypt_data(b"secret", &kp).unwrap();
    encrypted.ciphertext[0] ^= 1;
    assert_eq!(decrypt_data(&encrypted, &kp).unwrap_err(), PqcError::DecryptionFailed);
}

#[test]
fn test_encrypt_rejects_short_key() {
    let kp = KeyPair {
        id: "k".to_string(),
        algorithm: EncryptionAlgo::Aes256,
        public_key: vec![1; 8],
        private_key: vec![1; 8],
        created_at: String::new(),
    };
    assert_eq!(encrypt_data(b"x", &kp).unwrap_err(), PqcError::PrivateKeyTooShort(8));
    let bad_kem = KeyPair { algorithm: EncryptionAlgo::Kyber1024, ..kp };
    assert_eq!(
        encrypt_data(b"x", &bad_kem).unwrap_err(),
        PqcError::InvalidPublicKeyLength { expected: 1568, got: 8 }
    );
}

#[test]
fn test_sign_verify_hmac() {
    let mut engine = PqcEngine::new();
    let kp = engine.generate_keypair(EncryptionAlgo::ClassicalSign).unwrap();
    let message = b"sign this message";
    let sig = sign_message(message, &kp).unwrap();
    assert_eq!(sig.len(), 64);
    let valid = verify_signature(message, &sig, &kp).unwrap();
    assert!(valid);
}

#[test]
fn test_verify_wrong_message() {
    let mut engine = PqcEngine::new();
    let kp = engine.generate_keypair(EncryptionAlgo::ClassicalSign).unwrap();
    let sig = sign_message(b"original", &kp).unwrap();
    let valid = verify_signature(b"tampered", &sig, &kp).unwrap();
    assert!(!valid);
}

#[test]
fn test_sign_verify_ml_dsa44() {
    let mut engine = PqcEngine::new();
    let kp = engine.generate_keypair(EncryptionAlgo::MlDsa44).unwrap();
    let message = b"PQC digital signature test";
    let sig = sign_message(message, &kp).unwrap();
    assert_eq!(sig.len(), 2420);
    let valid = verify_signature(message, &sig, &kp).unwrap();
    assert!(valid);
}

#[test]
fn test_sign_verify_ml_dsa65() {
    let mut engine = PqcEngine::new();
    let kp = engine.generate_keypair(EncryptionAlgo::MlDsa65).unwrap();
    let message = b"PQC ML-DSA-65 signature test";
    let sig = sign_message(message, &kp).unwrap();
    assert_eq!(sig.len(), 3309);
    let valid = verify_signature(message, &sig, &kp).unwrap();
    assert!(valid);
}

#[test]
fn test_sign_verify_ml_dsa87() {
    let mut engine = PqcEngine::new();
    let kp = engine.generate_keypair(EncryptionAlgo::MlDsa87).unwrap();
    let message = b"PQC ML-DSA-87 signature test";
    let sig = sign_message(message, &kp).unwrap();
    assert_eq!(sig.len(), 4627);
    let valid = verify_signature(message, &sig, &kp).unwrap();
    assert!(valid);
    assert!(!verify_signature(b"other message", &sig, &kp).unwrap());
    assert!(!verify_signature(message, &sig[..10], &kp).unwrap());
}

#[test]
fn test_ml_dsa_keys_do_not_encrypt() {
    let mut engine = PqcEngine::new();
    let kp = engine.generate_keypair(EncryptionAlgo::MlDsa65).unwrap();
    assert!(matches!(encrypt_data(b"x", &kp), Err(PqcError::SignatureOnlyKey)));
}

#[test]
fn test_sign_verify_tampered_sig() {
    let mut engine = PqcEngine::new();
    let kp = engine.generate_keypair(EncryptionAlgo::MlDsa44).unwrap();
    let sig = sign_message(b"test", &kp).unwrap();
    let mut tampered = sig.clone();
    if let Some(b) = tampered.first_mut() {
        *b = b.wrapping_add(1);
    }
    let valid = verify_signature(b"test", &tampered, &kp).unwrap();
    assert!(!valid);
}

#[test]
fn test_sign_verify_tampered_hmac_sig() {
    let mut engine = PqcEngine::new();
    let kp = engine.generate_keypair(EncryptionAlgo::ClassicalSign).unwrap();
    let mut sig = sign_message(b"test", &kp).unwrap();
    sig[0] = sig[0].wrapping_add(1);
    assert!(!verify_signature(b"test", &sig, &kp).unwrap());
}

#[test]
fn test_keypair_timestamp_format() {
    let mut engine = PqcEngine::new();
    let kp = engine.generate_keypair(EncryptionAlgo::Aes256).unwrap();
    assert!(kp.created_at.contains("T"));
    assert!(kp.created_at.contains("Z"));
    assert!(kp.created_at.ends_with('Z'));
}

#[test]
fn test_generate_random_nonce() {
    let n1 = generate_random_nonce();
    let n2 = generate_random_nonce();
    assert_eq!(n1.len(), 12);
    assert_eq!(n2.len(), 12);
    assert_ne!(n1, n2);
}

#[test]
fn browser_symmetric_encryption_checks_lengths_and_roundtrips() {
    let key = [7u8; 32];
    let nonce = chacha20_generate_nonce();
    assert_eq!(nonce.len(), 12);
    let sealed = chacha20_encrypt(&key, &nonce, b"secret text").unwrap();
    assert_ne!(sealed, b"secret text".to_vec());
    assert_eq!(sealed.len(), 11 + 16);
    assert_eq!(chacha20_decrypt(&key, &nonce, &sealed).unwrap(), b"secret text".to_vec());
    assert_eq!(chacha20_encrypt(&key[..31], &nonce, b"x").unwrap_err(), "Key must be 32 bytes");
    assert_eq!(chacha20_encrypt(&key, &nonce[..11], b"x").unwrap_err(), "Nonce must be 12 bytes");
    let mut tampered = sealed.clone();
    tampered[0] ^= 1;
    assert_eq!(chacha20_decrypt(&key, &nonce, &tampered).unwrap_err(), "Decryption failed: aead::Error");
    assert_eq!(chacha20_decrypt(&key[..5], &nonce, &sealed).unwrap_err(), "Key must be 32 bytes");
}

#[test]
fn browser_key_agreement_and_derivation() {
    let a = x25519_generate_keypair();
    let b = x25519_generate_keypair();
    assert_eq!(a.private_key.len(), 32);
    let ab = x25519_shared_secret(&a.private_key, &b.public_key).unwrap();
    let ba = x25519_shared_secret(&b.private_key, &a.public_key).unwrap();
    assert_eq!(ab, ba);
    assert_eq!(x25519_shared_secret(&a.private_key[..3], &b.public_key).unwrap_err(), "Private key must be 32 bytes");
    assert_eq!(x25519_shared_secret(&a.private_key, &b.public_key[..3]).unwrap_err(), "Public key must be 32 bytes");
    let k1 = hkdf_derive(b"secret", b"salt", b"info", 42);
    assert_eq!(k1.len(), 42);
    assert_eq!(hkdf_derive(b"secret", b"salt", b"info", 42), k1);
    assert_ne!(hkdf_derive(b"secret", b"salt", b"other", 42), k1);
    assert_eq!(hkdf_derive(b"secret", b"salt", b"info", 8160).len(), 8160);
}

#[test]
fn browser_ml_dsa_signatures_roundtrip_and_check_lengths() {
    let kp = ml_dsa65_generate_keypair();
    assert_eq!(kp.private_key.len(), 4032);
    assert_eq!(kp.public_key.len(), 1952);
    let sig = ml_dsa65_sign(b"browser message", &kp.private_key).unwrap();
    assert_eq!(sig.len(), 3309);
    assert_eq!(ml_dsa65_sign(b"browser message", &kp.private_key).unwrap(), sig);
    assert_eq!(ml_dsa65_verify(b"browser message", &sig, &kp.public_key), Ok(true));
    assert_eq!(ml_dsa65_verify(b"another message", &sig, &kp.public_key), Ok(false));
    let other = ml_dsa65_generate_keypair();
    assert_eq!(ml_dsa65_verify(b"browser message", &sig, &other.public_key), Ok(false));
    assert_eq!(
        ml_dsa65_sign(b"m", &kp.private_key[..10]).unwrap_err(),
        "Invalid private key: expected 4032 bytes"
    );
    assert_eq!(
        ml_dsa65_verify(b"m", &sig, &kp.public_key[..10]).unwrap_err(),
        "Invalid public key: expected 1952 bytes"
    );
    assert_eq!(
        ml_dsa65_verify(b"m", &sig[..100], &kp.public_key).unwrap_err(),
        "Invalid signature: expected 3309 bytes"
    );
}

#[test]
fn browser_hashing_and_key_generation() {
    assert_eq!(blake3_hash(b""), "af1349b9f5f9a1a6a0404dea36dcc9499bcb25c9adc112b7cc9a93cae41f3262");
    assert_eq!(blake3_hash(b"abc").len(), 64);
    assert_ne!(blake3_hash(b"abc"), blake3_hash(b"abd"));
    let k1 = chacha20_generate_key();
    let k2 = chacha20_generate_key();
    assert_eq!(k1.len(), 32);
    assert_ne!(k1, k2);
    let nonce = chacha20_generate_nonce();
    let sealed = chacha20_encrypt(&k1, &nonce, b"payload").unwrap();
    assert_eq!(chacha20_decrypt(&k1, &nonce, &sealed).unwrap(), b"payload".to_vec());
    let tag = hmac_sha512(b"key", b"The quick brown fox jumps over the lazy dog");
    assert_eq!(tag.len(), 64);
    assert_eq!(tag[0], 0xb4);
    assert_eq!(tag[1], 0x2a);
}

#[test]
fn test_generate_keypair_appends_fresh_ids() {
    let mut engine = PqcEngine::new();
    let mut ids = Vec::new();
    for algo in [EncryptionAlgo::Aes256, EncryptionAlgo::ClassicalSign, EncryptionAlgo::Aes256] {
        let kp = engine.generate_keypair(algo).unwrap();
        assert!(!ids.contains(&kp.id));
        ids.push(kp.id.clone());
        assert_eq!(engine.list_keys().len(), ids.len());
        assert_eq!(engine.get_active_keypair().unwrap().id, kp.id);
    }
    let listed: Vec<String> = engine.list_keys().iter().map(|k| k.id.clone()).collect();
    assert_eq!(listed, ids);
}
