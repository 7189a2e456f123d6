//! The primitives offered to the browser build: symmetric encryption, key agreement, key
//! derivation and post-quantum signatures on raw bytes, each refusing keys, nonces and
//! signatures of the wrong length.
use vstd::prelude::*;

pub use crate::crypto::primitives::hmac_sha512;
use crate::digest::{blake3_hex, blake3_hex_digest};
use crate::crypto::primitives::{
    chacha_decrypt, chacha_encrypt, chacha_opened, chacha_sealed, hkdf_sha256_expand, hkdf_sha256_okm,
    random_bytes, x25519_dh, x25519_diffie_hellman, x25519_public, x25519_public_key, x25519_random_secret,
    HKDF_SHA256_MAX_LEN, MLDSA65_SIGNATURE_BYTES, MLDSA65_SIGNING_KEY_BYTES, MLDSA65_VERIFYING_KEY_BYTES,
    mldsa65_accepts, mldsa65_generate, mldsa65_sign, mldsa65_signature, mldsa65_verify, mldsa65_verifying_key_of,
};

verus! {

/// The message of the encryption crate's error (its `Display`).
pub open spec fn aead_error() -> Seq<char> {
    "aead::Error"@
}

fn array32(v: &[u8]) -> (r: [u8; 32])
    requires
        v@.len() == 32,
    ensures
        r@ == v@,
{
    let mut a = [0u8; 32];
    for i in 0..32
        invariant
            v@.len() == 32,
            forall|j: int| 0 <= j < i ==> a@[j] == v@[j],
    {
        a.set(i, v[i]);
    }
    assert(a@ =~= v@);
    a
}

fn array12(v: &[u8]) -> (r: [u8; 12])
    requires
        v@.len() == 12,
    ensures
        r@ == v@,
{
    let mut a = [0u8; 12];
    for i in 0..12
        invariant
            v@.len() == 12,
            forall|j: int| 0 <= j < i ==> a@[j] == v@[j],
    {
        a.set(i, v[i]);
    }
    assert(a@ =~= v@);
    a
}

/// The BLAKE3 digest of the bytes as 64 lowercase hexadecimal characters.
pub fn blake3_hash(data: &[u8]) -> (r: String)
    ensures
        r@ == blake3_hex(data@),
        r@.len() == 64,
{
    blake3_hex_digest(data)
}

/// A fresh random 256-bit ChaCha20-Poly1305 key.
pub fn chacha20_generate_key() -> (r: Vec<u8>)
    ensures
        r@.len() == 32,
{
    random_bytes(32)
}

/// A fresh random 96-bit nonce.
pub fn chacha20_generate_nonce() -> (r: Vec<u8>)
    ensures
        r@.len() == 12,
{
    random_bytes(12)
}

/// Encrypts with ChaCha20Poly1305: the key must be 32 bytes and the nonce 12.
pub fn chacha20_encrypt(key: &[u8], nonce: &[u8], plaintext: &[u8]) -> (r: Result<Vec<u8>, String>)
    ensures
        key@.len() != 32 ==> (r matches Err(m) && m@ == "Key must be 32 bytes"@),
        key@.len() == 32 && nonce@.len() != 12 ==> (r matches Err(m) && m@ == "Nonce must be 12 bytes"@),
        key@.len() == 32 && nonce@.len() == 12 ==> match chacha_sealed(key@, nonce@, plaintext@) {
            Some(c) => r matches Ok(v) && v@ == c && chacha_opened(key@, nonce@, c) == Some(plaintext@),
            None => r matches Err(m) && m@ == "Encryption failed: "@ + aead_error(),
        },
{
    if key.len() != 32 {
        return Err(String::from_str("Key must be 32 bytes"));
    }
    if nonce.len() != 12 {
        return Err(String::from_str("Nonce must be 12 bytes"));
    }
    let n = array12(nonce);
    match chacha_encrypt(key, &n, plaintext) {
        Some(c) => Ok(c),
        None => {
            proof {
                reveal_strlit("Encryption failed: ");
                reveal_strlit("aead::Error");
                reveal_strlit("Encryption failed: aead::Error");
                assert("Encryption failed: "@ + aead_error() =~= "Encryption failed: aead::Error"@);
            }
            Err(String::from_str("Encryption failed: aead::Error"))
        },
    }
}

/// Decrypts with ChaCha20Poly1305: the key must be 32 bytes and the nonce 12; a
/// ciphertext that does not authenticate is refused.
pub fn chacha20_decrypt(key: &[u8], nonce: &[u8], ciphertext: &[u8]) -> (r: Result<Vec<u8>, String>)
    ensures
        key@.len() != 32 ==> (r matches Err(m) && m@ == "Key must be 32 bytes"@),
        key@.len() == 32 && nonce@.len() != 12 ==> (r matches Err(m) && m@ == "Nonce must be 12 bytes"@),
        key@.len() == 32 && nonce@.len() == 12 ==> match chacha_opened(key@, nonce@, ciphertext@) {
            Some(p) => r matches Ok(v) && v@ == p,
            None => r matches Err(m) && m@ == "Decryption failed: "@ + aead_error(),
        },
{
    if key.len() != 32 {
        return Err(String::from_str("Key must be 32 bytes"));
    }
    if nonce.len() != 12 {
        return Err(String::from_str("Nonce must be 12 bytes"));
    }
    let n = array12(nonce);
    match chacha_decrypt(key, &n, ciphertext) {
        Some(p) => Ok(p),
        None => {
            proof {
                reveal_strlit("Decryption failed: ");
                reveal_strlit("aead::Error");
                reveal_strlit("Decryption failed: aead::Error");
                assert("Decryption failed: "@ + aead_error() =~= "Decryption failed: aead::Error"@);
            }
            Err(String::from_str("Decryption failed: aead::Error"))
        },
    }
}

/// Derives `length` bytes with HKDF-SHA256 from a secret, a salt and an info string.
pub fn hkdf_derive(secret: &[u8], salt: &[u8], info: &[u8], length: usize) -> (r: Vec<u8>)
    requires
        length <= HKDF_SHA256_MAX_LEN,
    ensures
        r@ == hkdf_sha256_okm(Some(salt@), secret@, info@, length as nat),
        r@.len() == length,
{
    hkdf_sha256_expand(Some(salt), secret, info, length)
}

/// A fresh X25519 key pair: a random secret and its public key.
pub struct X25519KeyPair {
    pub private_key: Vec<u8>,
    pub public_key: Vec<u8>,
}

/// Generates an X25519 key pair.
pub fn x25519_generate_keypair() -> (r: X25519KeyPair)
    ensures
        r.private_key@.len() == 32,
        r.public_key@ == x25519_public(r.private_key@),
{
    let secret = x25519_random_secret();
    let s = array32(secret.as_slice());
    let public = x25519_public_key(&s);
    X25519KeyPair { private_key: secret, public_key: public }
}

/// The X25519 shared secret of a private key and a peer's public key, both 32 bytes.
pub fn x25519_shared_secret(private_key: &[u8], peer_public: &[u8]) -> (r: Result<Vec<u8>, String>)
    ensures
        private_key@.len() != 32 ==> (r matches Err(m) && m@ == "Private key must be 32 bytes"@),
        private_key@.len() == 32 && peer_public@.len() != 32 ==> (r matches Err(m) && m@
            == "Public key must be 32 bytes"@),
        private_key@.len() == 32 && peer_public@.len() == 32 ==> (r matches Ok(v) && v@ == x25519_dh(
            private_key@,
            peer_public@,
        )),
{
    if private_key.len() != 32 {
        return Err(String::from_str("Private key must be 32 bytes"));
    }
    if peer_public.len() != 32 {
        return Err(String::from_str("Public key must be 32 bytes"));
    }
    let s = array32(private_key);
    let p = array32(peer_public);
    Ok(x25519_diffie_hellman(&s, &p))
}

/// A fresh ML-DSA-65 key pair, both keys encoded.
pub struct MlDsaKeyPair {
    pub private_key: Vec<u8>,
    pub public_key: Vec<u8>,
}

/// Generates an ML-DSA-65 key pair.
pub fn ml_dsa65_generate_keypair() -> (r: MlDsaKeyPair)
    ensures
        r.private_key@.len() == MLDSA65_SIGNING_KEY_BYTES,
        r.public_key@.len() == MLDSA65_VERIFYING_KEY_BYTES,
        r.public_key@ == mldsa65_verifying_key_of(r.private_key@),
        forall|m: Seq<u8>| #[trigger] mldsa65_accepts(r.public_key@, m, mldsa65_signature(r.private_key@, m)) == Some(true),
{
    let (sk, vk) = mldsa65_generate();
    MlDsaKeyPair { private_key: sk, public_key: vk }
}

/// Signs a message with an encoded ML-DSA-65 signing key, refusing a key of the wrong
/// length.
pub fn ml_dsa65_sign(message: &[u8], private_key: &[u8]) -> (r: Result<Vec<u8>, String>)
    ensures
        private_key@.len() != MLDSA65_SIGNING_KEY_BYTES ==> (r matches Err(m) && m@
            == "Invalid private key: expected 4032 bytes"@),
        private_key@.len() == MLDSA65_SIGNING_KEY_BYTES ==> (r matches Ok(s) && s@ == mldsa65_signature(
            private_key@,
            message@,
        ) && s@.len() == MLDSA65_SIGNATURE_BYTES),
{
    if private_key.len() != MLDSA65_SIGNING_KEY_BYTES {
        return Err(String::from_str("Invalid private key: expected 4032 bytes"));
    }
    Ok(mldsa65_sign(message, private_key))
}

/// Checks an ML-DSA-65 signature of a message against an encoded verifying key,
/// refusing a key or signature of the wrong length or a signature that does not
/// decode.
pub fn ml_dsa65_verify(message: &[u8], signature: &[u8], public_key: &[u8]) -> (r: Result<bool, String>)
    ensures
        public_key@.len() != MLDSA65_VERIFYING_KEY_BYTES ==> (r matches Err(m) && m@
            == "Invalid public key: expected 1952 bytes"@),
        public_key@.len() == MLDSA65_VERIFYING_KEY_BYTES && signature@.len() != MLDSA65_SIGNATURE_BYTES ==> (
        r matches Err(m) && m@ == "Invalid signature: expected 3309 bytes"@),
        public_key@.len() == MLDSA65_VERIFYING_KEY_BYTES && signature@.len() == MLDSA65_SIGNATURE_BYTES ==> match mldsa65_accepts(public_key@, message@, signature@) {
            Some(b) => r == Ok::<bool, String>(b),
            None => r matches Err(m) && m@ == "Invalid signature: malformed encoding"@,
        },
{
    if public_key.len() != MLDSA65_VERIFYING_KEY_BYTES {
        return Err(String::from_str("Invalid public key: expected 1952 bytes"));
    }
    if signature.len() != MLDSA65_SIGNATURE_BYTES {
        return Err(String::from_str("Invalid signature: expected 3309 bytes"));
    }
    match mldsa65_verify(message, signature, public_key) {
        Some(b) => Ok(b),
        None => Err(String::from_str("Invalid signature: malformed encoding")),
    }
}

} // verus!
