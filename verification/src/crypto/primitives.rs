//! The outside cryptographic primitives the PQC engine is built from.
use base64::Engine;
use chacha20poly1305::aead::{Aead, KeyInit};
use hmac::Mac;
use ml_dsa::signature::{Signer, Verifier};
use ml_dsa::KeyGen;
use sha2::Digest;
use pqcrypto_traits::kem::{Ciphertext as KemCiphertext, PublicKey as KemPublicKey};
use pqcrypto_traits::kem::{SecretKey as KemSecretKey, SharedSecret as KemSharedSecret};
use rand_core::RngCore;
use vstd::prelude::*;

verus! {

/// The HMAC-SHA512 tag that `Hmac::<Sha512>` computes for the key and message.
pub uninterp spec fn hmac_sha512_tag(key: Seq<u8>, message: Seq<u8>) -> Seq<u8>;

/// The `len` bytes that `Hkdf::<Sha256>::new(salt, ikm).expand(info, ..)` writes.
pub uninterp spec fn hkdf_sha256_okm(salt: Option<Seq<u8>>, ikm: Seq<u8>, info: Seq<u8>, len: nat) -> Seq<u8>;

/// The most bytes HKDF-SHA256 can expand to (255 hash lengths).
pub const HKDF_SHA256_MAX_LEN: usize = 8160;

/// The X25519 public key of a static secret.
pub uninterp spec fn x25519_public(secret: Seq<u8>) -> Seq<u8>;

/// The X25519 shared secret of a static secret and a public key.
pub uninterp spec fn x25519_dh(secret: Seq<u8>, public: Seq<u8>) -> Seq<u8>;

/// ChaCha20Poly1305 encryption of the plaintext (`None` for its error).
pub uninterp spec fn chacha_sealed(key: Seq<u8>, nonce: Seq<u8>, plaintext: Seq<u8>) -> Option<Seq<u8>>;

/// ChaCha20Poly1305 decryption of the ciphertext (`None` when it does not authenticate).
pub uninterp spec fn chacha_opened(key: Seq<u8>, nonce: Seq<u8>, ciphertext: Seq<u8>) -> Option<Seq<u8>>;

/// Whether an ML-KEM-1024 public key belongs to the secret key (the two halves of one
/// `keypair()`).
pub uninterp spec fn mlkem1024_pair(public_key: Seq<u8>, secret_key: Seq<u8>) -> bool;

/// Whether an ML-KEM-768 public key belongs to the secret key (the two halves of one
/// `keypair()`).
pub uninterp spec fn mlkem768_pair(public_key: Seq<u8>, secret_key: Seq<u8>) -> bool;

/// The shared secret that ML-KEM-1024 decapsulation gives for a ciphertext and secret key.
pub uninterp spec fn mlkem1024_decapsulated(ciphertext: Seq<u8>, secret_key: Seq<u8>) -> Seq<u8>;

/// The shared secret that ML-KEM-768 decapsulation gives for a ciphertext and secret key.
pub uninterp spec fn mlkem768_decapsulated(ciphertext: Seq<u8>, secret_key: Seq<u8>) -> Seq<u8>;

/// The standard (padded) Base64 text of the bytes.
pub uninterp spec fn base64_text(data: Seq<u8>) -> Seq<char>;

/// The bytes of a standard Base64 text (`None` when it is not valid Base64).
pub uninterp spec fn base64_bytes(text: Seq<char>) -> Option<Seq<u8>>;

/// The 32-byte SHA-256 digest of the bytes.
pub uninterp spec fn sha256_digest(data: Seq<u8>) -> Seq<u8>;

/// The verifying key that belongs to an encoded ML-DSA-65 signing key.
pub uninterp spec fn mldsa65_verifying_key_of(signing_key: Seq<u8>) -> Seq<u8>;

/// The deterministic ML-DSA-65 signature (empty context) of a message under an encoded
/// signing key.
pub uninterp spec fn mldsa65_signature(signing_key: Seq<u8>, message: Seq<u8>) -> Seq<u8>;

/// Whether an encoded ML-DSA-65 verifying key accepts a signature of a message (empty
/// context); none when the signature bytes do not decode.
pub uninterp spec fn mldsa65_accepts(verifying_key: Seq<u8>, message: Seq<u8>, signature: Seq<u8>) -> Option<bool>;

/// ML-DSA-65 encoded signing key length.
pub const MLDSA65_SIGNING_KEY_BYTES: usize = 4032;
/// ML-DSA-65 encoded verifying key length.
pub const MLDSA65_VERIFYING_KEY_BYTES: usize = 1952;
/// ML-DSA-65 encoded signature length.
pub const MLDSA65_SIGNATURE_BYTES: usize = 3309;

/// The verifying key that belongs to an encoded ML-DSA-44 signing key.
pub uninterp spec fn mldsa44_verifying_key_of(signing_key: Seq<u8>) -> Seq<u8>;

/// The deterministic ML-DSA-44 signature (empty context) of a message under an encoded
/// signing key.
pub uninterp spec fn mldsa44_signature(signing_key: Seq<u8>, message: Seq<u8>) -> Seq<u8>;

/// Whether an encoded ML-DSA-44 verifying key accepts a signature of a message (empty
/// context); none when the signature bytes do not decode.
pub uninterp spec fn mldsa44_accepts(verifying_key: Seq<u8>, message: Seq<u8>, signature: Seq<u8>) -> Option<bool>;

/// ML-DSA-44 encoded signing key length.
pub const MLDSA44_SIGNING_KEY_BYTES: usize = 2560;
/// ML-DSA-44 encoded verifying key length.
pub const MLDSA44_VERIFYING_KEY_BYTES: usize = 1312;
/// ML-DSA-44 encoded signature length.
pub const MLDSA44_SIGNATURE_BYTES: usize = 2420;

/// The verifying key that belongs to an encoded ML-DSA-87 signing key.
pub uninterp spec fn mldsa87_verifying_key_of(signing_key: Seq<u8>) -> Seq<u8>;

/// The deterministic ML-DSA-87 signature (empty context) of a message under an encoded
/// signing key.
pub uninterp spec fn mldsa87_signature(signing_key: Seq<u8>, message: Seq<u8>) -> Seq<u8>;

/// Whether an encoded ML-DSA-87 verifying key accepts a signature of a message (empty
/// context); none when the signature bytes do not decode.
pub uninterp spec fn mldsa87_accepts(verifying_key: Seq<u8>, message: Seq<u8>, signature: Seq<u8>) -> Option<bool>;

/// ML-DSA-87 encoded signing key length.
pub const MLDSA87_SIGNING_KEY_BYTES: usize = 4896;
/// ML-DSA-87 encoded verifying key length.
pub const MLDSA87_VERIFYING_KEY_BYTES: usize = 2592;
/// ML-DSA-87 encoded signature length.
pub const MLDSA87_SIGNATURE_BYTES: usize = 4627;

/// ML-KEM-1024 public key length.
pub const MLKEM1024_PUBLIC_KEY_BYTES: usize = 1568;
/// ML-KEM-1024 secret key length.
pub const MLKEM1024_SECRET_KEY_BYTES: usize = 3168;
/// ML-KEM-1024 ciphertext length.
pub const MLKEM1024_CIPHERTEXT_BYTES: usize = 1568;
/// ML-KEM-768 public key length.
pub const MLKEM768_PUBLIC_KEY_BYTES: usize = 1184;
/// ML-KEM-768 secret key length.
pub const MLKEM768_SECRET_KEY_BYTES: usize = 2400;
/// ML-KEM-768 ciphertext length.
pub const MLKEM768_CIPHERTEXT_BYTES: usize = 1088;

/// Calls `OsRng.fill_bytes` on `len` zero bytes. Only the length is stated: the bytes are random.
#[verifier::external_body]
pub(crate) fn random_bytes(len: usize) -> (r: Vec<u8>)
    ensures
        r@.len() == len,
{
    let mut out = vec![0u8; len];
    rand_core::OsRng.fill_bytes(&mut out);
    out
}

/// Calls `ChaCha20Poly1305::generate_key(OsRng)`. Only the length (32) is stated: the key is random.
#[verifier::external_body]
pub(crate) fn chacha_generate_key() -> (r: Vec<u8>)
    ensures
        r@.len() == 32,
{
    chacha20poly1305::ChaCha20Poly1305::generate_key(chacha20poly1305::aead::OsRng).to_vec()
}

/// Calls `pqcrypto_mlkem::mlkem1024::keypair` and gives the public and secret key bytes:
/// random keys of the stated lengths that belong together.
#[verifier::external_body]
pub(crate) fn mlkem1024_keypair() -> (r: (Vec<u8>, Vec<u8>))
    ensures
        r.0@.len() == MLKEM1024_PUBLIC_KEY_BYTES,
        r.1@.len() == MLKEM1024_SECRET_KEY_BYTES,
        mlkem1024_pair(r.0@, r.1@),
{
    let (pk, sk) = pqcrypto_mlkem::mlkem1024::keypair();
    (pk.as_bytes().to_vec(), sk.as_bytes().to_vec())
}

/// Calls `pqcrypto_mlkem::mlkem768::keypair` and gives the public and secret key bytes:
/// random keys of the stated lengths that belong together.
#[verifier::external_body]
pub(crate) fn mlkem768_keypair() -> (r: (Vec<u8>, Vec<u8>))
    ensures
        r.0@.len() == MLKEM768_PUBLIC_KEY_BYTES,
        r.1@.len() == MLKEM768_SECRET_KEY_BYTES,
        mlkem768_pair(r.0@, r.1@),
{
    let (pk, sk) = pqcrypto_mlkem::mlkem768::keypair();
    (pk.as_bytes().to_vec(), sk.as_bytes().to_vec())
}

/// Calls `mlkem1024::encapsulate` with the public key read by `PublicKey::from_bytes` (which
/// accepts exactly 1568 bytes): a fresh random shared secret and its ciphertext.
/// Decapsulating the ciphertext with the secret key that belongs to the public key gives the
/// same shared secret, as the module's documentation shows (`ss1 == ss2`).
#[verifier::external_body]
pub(crate) fn mlkem1024_encapsulate(public_key: &[u8]) -> (r: (Vec<u8>, Vec<u8>))
    requires
        public_key@.len() == MLKEM1024_PUBLIC_KEY_BYTES,
    ensures
        r.0@.len() == 32,
        r.1@.len() == MLKEM1024_CIPHERTEXT_BYTES,
        forall|sk: Seq<u8>| mlkem1024_pair(public_key@, sk) ==> #[trigger] mlkem1024_decapsulated(r.1@, sk) == r.0@,
{
    let pk = pqcrypto_mlkem::mlkem1024::PublicKey::from_bytes(public_key).unwrap();
    let (ss, ct) = pqcrypto_mlkem::mlkem1024::encapsulate(&pk);
    (ss.as_bytes().to_vec(), ct.as_bytes().to_vec())
}

/// Calls `mlkem768::encapsulate` with the public key read by `PublicKey::from_bytes` (which
/// accepts exactly 1184 bytes): a fresh random shared secret and its ciphertext.
/// Decapsulating the ciphertext with the secret key that belongs to the public key gives the
/// same shared secret, as the module's documentation shows (`ss1 == ss2`).
#[verifier::external_body]
pub(crate) fn mlkem768_encapsulate(public_key: &[u8]) -> (r: (Vec<u8>, Vec<u8>))
    requires
        public_key@.len() == MLKEM768_PUBLIC_KEY_BYTES,
    ensures
        r.0@.len() == 32,
        r.1@.len() == MLKEM768_CIPHERTEXT_BYTES,
        forall|sk: Seq<u8>| mlkem768_pair(public_key@, sk) ==> #[trigger] mlkem768_decapsulated(r.1@, sk) == r.0@,
{
    let pk = pqcrypto_mlkem::mlkem768::PublicKey::from_bytes(public_key).unwrap();
    let (ss, ct) = pqcrypto_mlkem::mlkem768::encapsulate(&pk);
    (ss.as_bytes().to_vec(), ct.as_bytes().to_vec())
}

/// Calls `mlkem1024::decapsulate` on a ciphertext and secret key read by `from_bytes`
/// (exact lengths 1568 and 3168): the 32-byte shared secret.
#[verifier::external_body]
pub(crate) fn mlkem1024_decapsulate(ciphertext: &[u8], secret_key: &[u8]) -> (r: Vec<u8>)
    requires
        ciphertext@.len() == MLKEM1024_CIPHERTEXT_BYTES,
        secret_key@.len() == MLKEM1024_SECRET_KEY_BYTES,
    ensures
        r@ == mlkem1024_decapsulated(ciphertext@, secret_key@),
        r@.len() == 32,
{
    let ct = pqcrypto_mlkem::mlkem1024::Ciphertext::from_bytes(ciphertext).unwrap();
    let sk = pqcrypto_mlkem::mlkem1024::SecretKey::from_bytes(secret_key).unwrap();
    pqcrypto_mlkem::mlkem1024::decapsulate(&ct, &sk).as_bytes().to_vec()
}

/// Calls `mlkem768::decapsulate` on a ciphertext and secret key read by `from_bytes`
/// (exact lengths 1088 and 2400): the 32-byte shared secret.
#[verifier::external_body]
pub(crate) fn mlkem768_decapsulate(ciphertext: &[u8], secret_key: &[u8]) -> (r: Vec<u8>)
    requires
        ciphertext@.len() == MLKEM768_CIPHERTEXT_BYTES,
        secret_key@.len() == MLKEM768_SECRET_KEY_BYTES,
    ensures
        r@ == mlkem768_decapsulated(ciphertext@, secret_key@),
        r@.len() == 32,
{
    let ct = pqcrypto_mlkem::mlkem768::Ciphertext::from_bytes(ciphertext).unwrap();
    let sk = pqcrypto_mlkem::mlkem768::SecretKey::from_bytes(secret_key).unwrap();
    pqcrypto_mlkem::mlkem768::decapsulate(&ct, &sk).as_bytes().to_vec()
}

/// Calls `Hkdf::<Sha256>::new(salt, ikm)` and `expand(info, ..)` into `len` bytes, which
/// succeeds for every length up to `HKDF_SHA256_MAX_LEN`.
#[verifier::external_body]
pub(crate) fn hkdf_sha256_expand(salt: Option<&[u8]>, ikm: &[u8], info: &[u8], len: usize) -> (r: Vec<u8>)
    requires
        len <= HKDF_SHA256_MAX_LEN,
    ensures
        r@ == hkdf_sha256_okm(
            match salt {
                Some(s) => Some(s@),
                None => None,
            },
            ikm@,
            info@,
            len as nat,
        ),
        r@.len() == len,
{
    let hk = hkdf::Hkdf::<sha2::Sha256>::new(salt, ikm);
    let mut okm = vec![0u8; len];
    hk.expand(info, &mut okm).unwrap();
    okm
}

/// Calls `StaticSecret::random_from_rng(OsRng)` and gives the secret's bytes. Only their
/// length is stated: the secret is random.
#[verifier::external_body]
pub(crate) fn x25519_random_secret() -> (r: Vec<u8>)
    ensures
        r@.len() == 32,
{
    x25519_dalek::StaticSecret::random_from_rng(rand_core::OsRng).to_bytes().to_vec()
}

/// Calls `PublicKey::from(&StaticSecret::from(secret))`: the X25519 public key of the secret.
/// Diffie-Hellman is symmetric: any other 32-byte secret agrees with this one on the shared
/// secret (both are the clamped scalars' product times the base point).
#[verifier::external_body]
pub(crate) fn x25519_public_key(secret: &[u8; 32]) -> (r: Vec<u8>)
    ensures
        r@ == x25519_public(secret@),
        r@.len() == 32,
        forall|b: Seq<u8>| b.len() == 32 ==> #[trigger] x25519_dh(b, r@) == x25519_dh(secret@, x25519_public(b)),
{
    let s = x25519_dalek::StaticSecret::from(*secret);
    x25519_dalek::PublicKey::from(&s).to_bytes().to_vec()
}

/// Calls `StaticSecret::from(secret).diffie_hellman(&PublicKey::from(public))`: the 32 bytes of
/// the shared secret.
#[verifier::external_body]
pub(crate) fn x25519_diffie_hellman(secret: &[u8; 32], public: &[u8; 32]) -> (r: Vec<u8>)
    ensures
        r@ == x25519_dh(secret@, public@),
        r@.len() == 32,
{
    let s = x25519_dalek::StaticSecret::from(*secret);
    let p = x25519_dalek::PublicKey::from(*public);
    s.diffie_hellman(&p).as_bytes().to_vec()
}

/// The smallest plaintext length ChaCha20Poly1305 refuses: 64-byte blocks up to `u32::MAX`
/// of them.
pub const CHACHA_MAX_PLAINTEXT: u64 = 274_877_906_880;

/// Calls `ChaCha20Poly1305::new_from_slice(key)` (which accepts exactly 32 bytes) and
/// `encrypt` with the nonce. The crate refuses only a plaintext of `u32::MAX` or more 64-byte
/// blocks; otherwise the result is the ciphertext followed by its 16-byte tag, and the
/// crate's `decrypt` with the same key and nonce gives the plaintext back from it.
#[verifier::external_body]
pub(crate) fn chacha_encrypt(key: &[u8], nonce: &[u8; 12], plaintext: &[u8]) -> (r: Option<Vec<u8>>)
    requires
        key@.len() == 32,
    ensures
        r is Some <==> chacha_sealed(key@, nonce@, plaintext@) is Some,
        r is Some <==> plaintext@.len() < CHACHA_MAX_PLAINTEXT,
        r matches Some(c) ==> chacha_sealed(key@, nonce@, plaintext@) == Some(c@),
        r matches Some(c) ==> chacha_opened(key@, nonce@, c@) == Some(plaintext@),
        r matches Some(c) ==> c@.len() == plaintext@.len() + 16,
{
    let cipher = chacha20poly1305::ChaCha20Poly1305::new_from_slice(key).unwrap();
    cipher.encrypt(chacha20poly1305::Nonce::from_slice(nonce), plaintext).ok()
}

/// Calls `ChaCha20Poly1305::new_from_slice(key)` (exactly 32 bytes) and `decrypt` with the
/// nonce: the plaintext, or `None` when the ciphertext does not authenticate.
#[verifier::external_body]
pub(crate) fn chacha_decrypt(key: &[u8], nonce: &[u8; 12], ciphertext: &[u8]) -> (r: Option<Vec<u8>>)
    requires
        key@.len() == 32,
    ensures
        r is Some <==> chacha_opened(key@, nonce@, ciphertext@) is Some,
        r matches Some(p) ==> chacha_opened(key@, nonce@, ciphertext@) == Some(p@),
{
    let cipher = chacha20poly1305::ChaCha20Poly1305::new_from_slice(key).unwrap();
    cipher.decrypt(chacha20poly1305::Nonce::from_slice(nonce), ciphertext).ok()
}

/// Calls `MlDsa65::key_gen(&mut OsRng)` and encodes both keys. The keys are random; the
/// verifying key is the one that belongs to the signing key, and (the scheme's correctness,
/// which the crate's documentation and round-trip tests show) it accepts every signature
/// the signing key makes; each such signature encodes to the fixed signature length.
#[verifier::external_body]
pub(crate) fn mldsa65_generate() -> (r: (Vec<u8>, Vec<u8>))
    ensures
        r.0@.len() == MLDSA65_SIGNING_KEY_BYTES,
        r.1@.len() == MLDSA65_VERIFYING_KEY_BYTES,
        r.1@ == mldsa65_verifying_key_of(r.0@),
        forall|m: Seq<u8>| #![trigger mldsa65_signature(r.0@, m)] mldsa65_signature(r.0@, m).len() == MLDSA65_SIGNATURE_BYTES
            && mldsa65_accepts(r.1@, m, mldsa65_signature(r.0@, m)) == Some(true),
{
    let kp = ml_dsa::MlDsa65::key_gen(&mut rand_core::OsRng);
    (kp.signing_key().encode().to_vec(), kp.verifying_key().encode().to_vec())
}

/// Calls `SigningKey::<MlDsa65>::decode` on the encoded key and signs with `Signer::sign`
/// (the deterministic variant, empty context, which does not fail).
#[verifier::external_body]
pub(crate) fn mldsa65_sign(message: &[u8], signing_key: &[u8]) -> (r: Vec<u8>)
    requires
        signing_key@.len() == MLDSA65_SIGNING_KEY_BYTES,
    ensures
        r@ == mldsa65_signature(signing_key@, message@),
        r@.len() == MLDSA65_SIGNATURE_BYTES,
{
    let enc = ml_dsa::EncodedSigningKey::<ml_dsa::MlDsa65>::try_from(signing_key).unwrap();
    let sk = ml_dsa::SigningKey::<ml_dsa::MlDsa65>::decode(&enc);
    sk.sign(message).encode().to_vec()
}

/// Calls `VerifyingKey::<MlDsa65>::decode` and `Signature::<MlDsa65>::decode` on the encoded
/// key and signature, then `Verifier::verify`; none when the signature does not decode.
#[verifier::external_body]
pub(crate) fn mldsa65_verify(message: &[u8], signature: &[u8], verifying_key: &[u8]) -> (r: Option<bool>)
    requires
        verifying_key@.len() == MLDSA65_VERIFYING_KEY_BYTES,
        signature@.len() == MLDSA65_SIGNATURE_BYTES,
    ensures
        r == mldsa65_accepts(verifying_key@, message@, signature@),
{
    let vk_enc = ml_dsa::EncodedVerifyingKey::<ml_dsa::MlDsa65>::try_from(verifying_key).unwrap();
    let vk = ml_dsa::VerifyingKey::<ml_dsa::MlDsa65>::decode(&vk_enc);
    let sig_enc = ml_dsa::EncodedSignature::<ml_dsa::MlDsa65>::try_from(signature).unwrap();
    match ml_dsa::Signature::<ml_dsa::MlDsa65>::decode(&sig_enc) {
        Some(sig) => Some(vk.verify(message, &sig).is_ok()),
        None => None,
    }
}

/// Calls `MlDsa44::key_gen(&mut OsRng)` and encodes both keys. The keys are random; the
/// verifying key is the one that belongs to the signing key, and (the scheme's correctness,
/// which the crate's documentation and round-trip tests show) it accepts every signature
/// the signing key makes; each such signature encodes to the fixed signature length.
#[verifier::external_body]
pub(crate) fn mldsa44_generate() -> (r: (Vec<u8>, Vec<u8>))
    ensures
        r.0@.len() == MLDSA44_SIGNING_KEY_BYTES,
        r.1@.len() == MLDSA44_VERIFYING_KEY_BYTES,
        r.1@ == mldsa44_verifying_key_of(r.0@),
        forall|m: Seq<u8>| #![trigger mldsa44_signature(r.0@, m)] mldsa44_signature(r.0@, m).len() == MLDSA44_SIGNATURE_BYTES
            && mldsa44_accepts(r.1@, m, mldsa44_signature(r.0@, m)) == Some(true),
{
    let kp = ml_dsa::MlDsa44::key_gen(&mut rand_core::OsRng);
    (kp.signing_key().encode().to_vec(), kp.verifying_key().encode().to_vec())
}

/// Calls `SigningKey::<MlDsa44>::decode` on the encoded key and signs with `Signer::sign`
/// (the deterministic variant, empty context, which does not fail).
#[verifier::external_body]
pub(crate) fn mldsa44_sign(message: &[u8], signing_key: &[u8]) -> (r: Vec<u8>)
    requires
        signing_key@.len() == MLDSA44_SIGNING_KEY_BYTES,
    ensures
        r@ == mldsa44_signature(signing_key@, message@),
        r@.len() == MLDSA44_SIGNATURE_BYTES,
{
    let enc = ml_dsa::EncodedSigningKey::<ml_dsa::MlDsa44>::try_from(signing_key).unwrap();
    let sk = ml_dsa::SigningKey::<ml_dsa::MlDsa44>::decode(&enc);
    sk.sign(message).encode().to_vec()
}

/// Calls `VerifyingKey::<MlDsa44>::decode` and `Signature::<MlDsa44>::decode` on the encoded
/// key and signature, then `Verifier::verify`; none when the signature does not decode.
#[verifier::external_body]
pub(crate) fn mldsa44_verify(message: &[u8], signature: &[u8], verifying_key: &[u8]) -> (r: Option<bool>)
    requires
        verifying_key@.len() == MLDSA44_VERIFYING_KEY_BYTES,
        signature@.len() == MLDSA44_SIGNATURE_BYTES,
    ensures
        r == mldsa44_accepts(verifying_key@, message@, signature@),
{
    let vk_enc = ml_dsa::EncodedVerifyingKey::<ml_dsa::MlDsa44>::try_from(verifying_key).unwrap();
    let vk = ml_dsa::VerifyingKey::<ml_dsa::MlDsa44>::decode(&vk_enc);
    let sig_enc = ml_dsa::EncodedSignature::<ml_dsa::MlDsa44>::try_from(signature).unwrap();
    match ml_dsa::Signature::<ml_dsa::MlDsa44>::decode(&sig_enc) {
        Some(sig) => Some(vk.verify(message, &sig).is_ok()),
        None => None,
    }
}

/// Calls `MlDsa87::key_gen(&mut OsRng)` and encodes both keys. The keys are random; the
/// verifying key is the one that belongs to the signing key, and (the scheme's correctness,
/// which the crate's documentation and round-trip tests show) it accepts every signature
/// the signing key makes; each such signature encodes to the fixed signature length.
#[verifier::external_body]
pub(crate) fn mldsa87_generate() -> (r: (Vec<u8>, Vec<u8>))
    ensures
        r.0@.len() == MLDSA87_SIGNING_KEY_BYTES,
        r.1@.len() == MLDSA87_VERIFYING_KEY_BYTES,
        r.1@ == mldsa87_verifying_key_of(r.0@),
        forall|m: Seq<u8>| #![trigger mldsa87_signature(r.0@, m)] mldsa87_signature(r.0@, m).len() == MLDSA87_SIGNATURE_BYTES
            && mldsa87_accepts(r.1@, m, mldsa87_signature(r.0@, m)) == Some(true),
{
    let kp = ml_dsa::MlDsa87::key_gen(&mut rand_core::OsRng);
    (kp.signing_key().encode().to_vec(), kp.verifying_key().encode().to_vec())
}

/// Calls `SigningKey::<MlDsa87>::decode` on the encoded key and signs with `Signer::sign`
/// (the deterministic variant, empty context, which does not fail).
#[verifier::external_body]
pub(crate) fn mldsa87_sign(message: &[u8], signing_key: &[u8]) -> (r: Vec<u8>)
    requires
        signing_key@.len() == MLDSA87_SIGNING_KEY_BYTES,
    ensures
        r@ == mldsa87_signature(signing_key@, message@),
        r@.len() == MLDSA87_SIGNATURE_BYTES,
{
    let enc = ml_dsa::EncodedSigningKey::<ml_dsa::MlDsa87>::try_from(signing_key).unwrap();
    let sk = ml_dsa::SigningKey::<ml_dsa::MlDsa87>::decode(&enc);
    sk.sign(message).encode().to_vec()
}

/// Calls `VerifyingKey::<MlDsa87>::decode` and `Signature::<MlDsa87>::decode` on the encoded
/// key and signature, then `Verifier::verify`; none when the signature does not decode.
#[verifier::external_body]
pub(crate) fn mldsa87_verify(message: &[u8], signature: &[u8], verifying_key: &[u8]) -> (r: Option<bool>)
    requires
        verifying_key@.len() == MLDSA87_VERIFYING_KEY_BYTES,
        signature@.len() == MLDSA87_SIGNATURE_BYTES,
    ensures
        r == mldsa87_accepts(verifying_key@, message@, signature@),
{
    let vk_enc = ml_dsa::EncodedVerifyingKey::<ml_dsa::MlDsa87>::try_from(verifying_key).unwrap();
    let vk = ml_dsa::VerifyingKey::<ml_dsa::MlDsa87>::decode(&vk_enc);
    let sig_enc = ml_dsa::EncodedSignature::<ml_dsa::MlDsa87>::try_from(signature).unwrap();
    match ml_dsa::Signature::<ml_dsa::MlDsa87>::decode(&sig_enc) {
        Some(sig) => Some(vk.verify(message, &sig).is_ok()),
        None => None,
    }
}

/// Calls `Hmac::<Sha512>::new_from_slice(key)` (HMAC takes keys of any length), `update` and
/// `finalize`: the 64-byte tag.
#[verifier::external_body]
pub fn hmac_sha512(key: &[u8], message: &[u8]) -> (r: Vec<u8>)
    ensures
        r@ == hmac_sha512_tag(key@, message@),
        r@.len() == 64,
{
    let mut mac = <hmac::Hmac<sha2::Sha512> as hmac::Mac>::new_from_slice(key).unwrap();
    mac.update(message);
    mac.finalize().into_bytes().to_vec()
}

/// Calls `Hmac::<Sha512>::new_from_slice(key)`, `update` and `verify_slice(tag)`, which
/// compares in constant time and accepts exactly the full tag.
#[verifier::external_body]
pub(crate) fn hmac_sha512_verify(key: &[u8], message: &[u8], tag: &[u8]) -> (r: bool)
    ensures
        r == (tag@ == hmac_sha512_tag(key@, message@)),
{
    let mut mac = <hmac::Hmac<sha2::Sha512> as hmac::Mac>::new_from_slice(key).unwrap();
    mac.update(message);
    mac.verify_slice(tag).is_ok()
}

/// Calls `Sha256::digest(data)`: the 32-byte SHA-256 digest.
#[verifier::external_body]
pub(crate) fn sha256_digest_bytes(data: &[u8]) -> (r: Vec<u8>)
    ensures
        r@ == sha256_digest(data@),
        r@.len() == 32,
{
    sha2::Sha256::digest(data).to_vec()
}

/// Calls `base64::engine::general_purpose::STANDARD.encode`: padded Base64, four characters
/// for every started group of three bytes, which `decode` turns back into the bytes.
#[verifier::external_body]
pub(crate) fn base64_encode(data: &[u8]) -> (r: String)
    ensures
        r@ == base64_text(data@),
        r@.len() == 4 * ((data@.len() + 2) / 3),
        base64_bytes(r@) == Some(data@),
{
    base64::engine::general_purpose::STANDARD.encode(data)
}

/// Calls `base64::engine::general_purpose::STANDARD.decode`: the bytes, or the text of its
/// error (what that text says is not stated).
#[verifier::external_body]
pub(crate) fn base64_decode(text: &str) -> (r: Result<Vec<u8>, String>)
    ensures
        r is Ok <==> base64_bytes(text@) is Some,
        r matches Ok(v) ==> base64_bytes(text@) == Some(v@),
{
    base64::engine::general_purpose::STANDARD.decode(text).map_err(|e| e.to_string())
}

/// Calls `uuid::Uuid::new_v4().to_string()`: a random identifier in the 36-character
/// hyphenated form. Only the length is stated.
#[verifier::external_body]
pub(crate) fn new_uuid_v4() -> (r: String)
    ensures
        r@.len() == 36,
{
    uuid::Uuid::new_v4().to_string()
}

/// Calls `chrono::Utc::now().to_rfc3339_opts(SecondsFormat::AutoSi, true)`: the current time
/// as RFC 3339 text in UTC, written with `Z`. The time itself is not stated; the text has the
/// date and time apart by `T` and ends in `Z`.
#[verifier::external_body]
pub(crate) fn now_rfc3339() -> (r: String)
    ensures
        r@.len() > 0 && r@.last() == 'Z' && r@.contains('T'),
{
    chrono::Utc::now().to_rfc3339_opts(chrono::SecondsFormat::AutoSi, true)
}

} // verus!
