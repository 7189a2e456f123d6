//! The encryption engine: ML-KEM key encapsulation (pure or hybrid with X25519),
//! ChaCha20Poly1305 for the data, BLAKE3 for integrity and HMAC-SHA512 signatures.
use vstd::prelude::*;
use vstd::string::StringSliceAdditionalSpecFns;

use crate::crypto::primitives::{
    chacha_decrypt, chacha_encrypt, chacha_opened, chacha_sealed, hkdf_sha256_expand, hkdf_sha256_okm,
    hmac_sha512, hmac_sha512_tag, hmac_sha512_verify, mlkem1024_decapsulate, mlkem1024_decapsulated,
    mlkem1024_encapsulate, mlkem768_decapsulate, mlkem768_decapsulated, mlkem768_encapsulate, now_rfc3339,
    random_bytes, x25519_dh, x25519_diffie_hellman, x25519_public_key, x25519_random_secret,
    MLKEM1024_CIPHERTEXT_BYTES, MLKEM1024_PUBLIC_KEY_BYTES, MLKEM1024_SECRET_KEY_BYTES,
    MLKEM768_CIPHERTEXT_BYTES, MLKEM768_PUBLIC_KEY_BYTES, MLKEM768_SECRET_KEY_BYTES, sha256_digest,
    CHACHA_MAX_PLAINTEXT, MLDSA44_SIGNATURE_BYTES, MLDSA44_SIGNING_KEY_BYTES, MLDSA44_VERIFYING_KEY_BYTES,
    MLDSA65_SIGNATURE_BYTES, MLDSA65_SIGNING_KEY_BYTES, MLDSA65_VERIFYING_KEY_BYTES, MLDSA87_SIGNATURE_BYTES,
    MLDSA87_SIGNING_KEY_BYTES, MLDSA87_VERIFYING_KEY_BYTES, mldsa44_accepts, mldsa44_sign, mldsa44_signature,
    mldsa44_verify, mldsa44_verifying_key_of, mldsa65_accepts, mldsa65_sign, mldsa65_signature, mldsa65_verify,
    mldsa65_verifying_key_of, mldsa87_accepts, mldsa87_sign, mldsa87_signature, mldsa87_verify,
    mldsa87_verifying_key_of, mlkem1024_pair, mlkem768_pair,
};
use crate::digest::{blake3_hex, blake3_hex_digest};
use crate::text::{chars_of, eq_lit};

verus! {

/// Supported encryption algorithms.
#[derive(Debug, Clone, Copy, PartialEq, Eq, Structural)]
pub enum EncryptionAlgo {
    /// ML-KEM-1024 (FIPS 203), NIST level 5.
    Kyber1024,
    /// ML-KEM-768 together with X25519.
    Hybrid,
    /// HMAC-SHA512 signing key (classical, not post-quantum).
    ClassicalSign,
    /// ChaCha20Poly1305 symmetric key (classical).
    Aes256,
    /// ML-DSA-44 signing key (FIPS 204), NIST level 2.
    MlDsa44,
    /// ML-DSA-65 signing key (FIPS 204), NIST level 3.
    MlDsa65,
    /// ML-DSA-87 signing key (FIPS 204), NIST level 5.
    MlDsa87,
}

impl EncryptionAlgo {
    pub open spec fn nist_level_spec(self) -> u8 {
        match self {
            EncryptionAlgo::Kyber1024 => 5,
            EncryptionAlgo::Hybrid => 5,
            EncryptionAlgo::ClassicalSign => 0,
            EncryptionAlgo::Aes256 => 0,
            EncryptionAlgo::MlDsa44 => 2,
            EncryptionAlgo::MlDsa65 => 3,
            EncryptionAlgo::MlDsa87 => 5,
        }
    }

    pub open spec fn display_name_spec(self) -> Seq<char> {
        match self {
            EncryptionAlgo::Kyber1024 => "ML-KEM-1024 — FIPS 203"@,
            EncryptionAlgo::Hybrid => "Hybrid ML-KEM-768 + X25519"@,
            EncryptionAlgo::ClassicalSign => "HMAC-SHA512 (Classical — NOT post-quantum)"@,
            EncryptionAlgo::Aes256 => "ChaCha20Poly1305 (Classical)"@,
            EncryptionAlgo::MlDsa44 => "ML-DSA-44 — FIPS 204"@,
            EncryptionAlgo::MlDsa65 => "ML-DSA-65 — FIPS 204"@,
            EncryptionAlgo::MlDsa87 => "ML-DSA-87 — FIPS 204"@,
        }
    }

    pub open spec fn color_spec(self) -> Seq<char> {
        match self {
            EncryptionAlgo::Kyber1024 => "#00FF41"@,
            EncryptionAlgo::Hybrid => "#FFB800"@,
            EncryptionAlgo::ClassicalSign => "#00D4FF"@,
            EncryptionAlgo::Aes256 => "#FF6B2B"@,
            EncryptionAlgo::MlDsa44 => "#B388FF"@,
            EncryptionAlgo::MlDsa65 => "#9D4EDD"@,
            EncryptionAlgo::MlDsa87 => "#7B2CBF"@,
        }
    }

    /// NIST post-quantum security level (0 for classical algorithms).
    pub fn nist_level(&self) -> (r: u8)
        ensures
            r == self.nist_level_spec(),
    {
        match self {
            EncryptionAlgo::Kyber1024 => 5,
            EncryptionAlgo::Hybrid => 5,
            EncryptionAlgo::ClassicalSign => 0,
            EncryptionAlgo::Aes256 => 0,
            EncryptionAlgo::MlDsa44 => 2,
            EncryptionAlgo::MlDsa65 => 3,
            EncryptionAlgo::MlDsa87 => 5,
        }
    }

    /// Human-readable name of the algorithm.
    pub fn display_name(&self) -> (r: &str)
        ensures
            r@ == self.display_name_spec(),
    {
        match self {
            EncryptionAlgo::Kyber1024 => "ML-KEM-1024 — FIPS 203",
            EncryptionAlgo::Hybrid => "Hybrid ML-KEM-768 + X25519",
            EncryptionAlgo::ClassicalSign => "HMAC-SHA512 (Classical — NOT post-quantum)",
            EncryptionAlgo::Aes256 => "ChaCha20Poly1305 (Classical)",
            EncryptionAlgo::MlDsa44 => "ML-DSA-44 — FIPS 204",
            EncryptionAlgo::MlDsa65 => "ML-DSA-65 — FIPS 204",
            EncryptionAlgo::MlDsa87 => "ML-DSA-87 — FIPS 204",
        }
    }

    /// Whether keys of the algorithm only sign (they are not used to encrypt data).
    pub open spec fn is_signature_only_spec(self) -> bool {
        match self {
            EncryptionAlgo::ClassicalSign | EncryptionAlgo::MlDsa44 | EncryptionAlgo::MlDsa65
            | EncryptionAlgo::MlDsa87 => true,
            _ => false,
        }
    }

    /// Whether keys of the algorithm only sign.
    pub fn is_signature_only(&self) -> (r: bool)
        ensures
            r == self.is_signature_only_spec(),
    {
        match self {
            EncryptionAlgo::ClassicalSign | EncryptionAlgo::MlDsa44 | EncryptionAlgo::MlDsa65
            | EncryptionAlgo::MlDsa87 => true,
            _ => false,
        }
    }

    /// Display color of the algorithm.
    pub fn color(&self) -> (r: &str)
        ensures
            r@ == self.color_spec(),
    {
        match self {
            EncryptionAlgo::Kyber1024 => "#00FF41",
            EncryptionAlgo::Hybrid => "#FFB800",
            EncryptionAlgo::ClassicalSign => "#00D4FF",
            EncryptionAlgo::Aes256 => "#FF6B2B",
            EncryptionAlgo::MlDsa44 => "#B388FF",
            EncryptionAlgo::MlDsa65 => "#9D4EDD",
            EncryptionAlgo::MlDsa87 => "#7B2CBF",
        }
    }
}

/// The abstract content of a key pair.
pub struct KeyPairModel {
    pub id: Seq<char>,
    pub algorithm: EncryptionAlgo,
    pub public_key: Seq<u8>,
    pub private_key: Seq<u8>,
    pub created_at: Seq<char>,
}

/// Key material for one algorithm.
///
/// - `Kyber1024`, `Hybrid`: ML-KEM encapsulation (public) and decapsulation (private) keys.
/// - `ClassicalSign`: a 64-byte HMAC-SHA512 key; the public part is its SHA-256 fingerprint.
/// - `MlDsa44`, `MlDsa65`, `MlDsa87`: encoded ML-DSA signing (private) and verifying (public) keys.
/// - `Aes256`: a 32-byte ChaCha20Poly1305 key, stored as both parts.
#[derive(Debug, Clone)]
pub struct KeyPair {
    pub id: String,
    pub algorithm: EncryptionAlgo,
    pub public_key: Vec<u8>,
    pub private_key: Vec<u8>,
    pub created_at: String,
}

impl View for KeyPair {
    type V = KeyPairModel;

    open spec fn view(&self) -> KeyPairModel {
        KeyPairModel {
            id: self.id@,
            algorithm: self.algorithm,
            public_key: self.public_key@,
            private_key: self.private_key@,
            created_at: self.created_at@,
        }
    }
}

impl KeyPair {
    /// A copy of this key pair.
    pub fn duplicate(&self) -> (r: KeyPair)
        ensures
            r@ == self@,
    {
        KeyPair {
            id: self.id.clone(),
            algorithm: self.algorithm,
            public_key: self.public_key.clone(),
            private_key: self.private_key.clone(),
            created_at: self.created_at.clone(),
        }
    }
}

/// Whether a key pair holds well-formed key material for its algorithm.
pub open spec fn key_material_ok(k: KeyPairModel) -> bool {
    match k.algorithm {
        EncryptionAlgo::Kyber1024 => k.public_key.len() == MLKEM1024_PUBLIC_KEY_BYTES
            && k.private_key.len() == MLKEM1024_SECRET_KEY_BYTES,
        EncryptionAlgo::Hybrid => k.public_key.len() == MLKEM768_PUBLIC_KEY_BYTES
            && k.private_key.len() == MLKEM768_SECRET_KEY_BYTES,
        EncryptionAlgo::ClassicalSign => k.private_key.len() == 64 && k.public_key == sha256_digest(k.private_key),
        EncryptionAlgo::Aes256 => k.private_key.len() == 32 && k.public_key == k.private_key,
        EncryptionAlgo::MlDsa44 => k.private_key.len() == MLDSA44_SIGNING_KEY_BYTES
            && k.public_key.len() == MLDSA44_VERIFYING_KEY_BYTES
            && k.public_key == mldsa44_verifying_key_of(k.private_key)
            && forall|m: Seq<u8>| #![trigger mldsa44_signature(k.private_key, m)] mldsa44_signature(k.private_key, m).len() == MLDSA44_SIGNATURE_BYTES
                && mldsa44_accepts(k.public_key, m, mldsa44_signature(k.private_key, m)) == Some(true),
        EncryptionAlgo::MlDsa65 => k.private_key.len() == MLDSA65_SIGNING_KEY_BYTES
            && k.public_key.len() == MLDSA65_VERIFYING_KEY_BYTES
            && k.public_key == mldsa65_verifying_key_of(k.private_key)
            && forall|m: Seq<u8>| #![trigger mldsa65_signature(k.private_key, m)] mldsa65_signature(k.private_key, m).len() == MLDSA65_SIGNATURE_BYTES
                && mldsa65_accepts(k.public_key, m, mldsa65_signature(k.private_key, m)) == Some(true),
        EncryptionAlgo::MlDsa87 => k.private_key.len() == MLDSA87_SIGNING_KEY_BYTES
            && k.public_key.len() == MLDSA87_VERIFYING_KEY_BYTES
            && k.public_key == mldsa87_verifying_key_of(k.private_key)
            && forall|m: Seq<u8>| #![trigger mldsa87_signature(k.private_key, m)] mldsa87_signature(k.private_key, m).len() == MLDSA87_SIGNATURE_BYTES
                && mldsa87_accepts(k.public_key, m, mldsa87_signature(k.private_key, m)) == Some(true),
    }
}

/// Why an encryption engine operation failed.
#[derive(Debug, Clone, PartialEq, Eq)]
pub enum PqcError {
    /// The key pair's public key has the wrong length for its ML-KEM variant.
    InvalidPublicKeyLength { expected: usize, got: usize },
    /// The key pair's secret key has the wrong length for its ML-KEM variant.
    InvalidSecretKeyLength { expected: usize, got: usize },
    /// The stored ML-KEM ciphertext has the wrong length.
    InvalidKemCiphertextLength { expected: usize, got: usize },
    /// A symmetric or signing key shorter than the 32 bytes ChaCha20Poly1305 needs.
    PrivateKeyTooShort(usize),
    /// Hybrid data without a 32-byte X25519 ephemeral public key.
    MissingEphemeralKey,
    /// ChaCha20Poly1305 refused to encrypt.
    EncryptionFailed,
    /// ChaCha20Poly1305 decryption failed: wrong key or corrupted data.
    DecryptionFailed,
    /// The decrypted data does not have the recorded BLAKE3 hash.
    IntegrityCheckFailed,
    /// A Base64 field of stored metadata could not be decoded.
    InvalidBase64,
    /// The stored nonce does not decode to exactly 12 bytes.
    InvalidNonceLength(usize),
    /// An ML-DSA key signs only; it does not encrypt or decrypt data.
    SignatureOnlyKey,
}

/// Everything needed to decrypt a file: ciphertext, KEM metadata and nonce.
#[derive(Debug, Clone)]
pub struct FileEncryptedData {
    /// ChaCha20Poly1305 ciphertext with its Poly1305 tag.
    pub ciphertext: Vec<u8>,
    /// The 96-bit nonce of this encryption.
    pub nonce: [u8; 12],
    /// Algorithm label, e.g. `ML-KEM-1024 — FIPS 203+ChaCha20Poly1305`.
    pub algorithm: String,
    /// Id of the key pair used.
    pub key_id: String,
    /// ML-KEM ciphertext (empty for the symmetric algorithms).
    pub kem_ciphertext: Vec<u8>,
    /// X25519 ephemeral public key (hybrid mode only).
    pub x25519_ephemeral_pk: Option<Vec<u8>>,
    /// BLAKE3 hash (hex) of the plaintext.
    pub blake3_original: String,
    /// RFC 3339 time of the encryption.
    pub encrypted_at: String,
}

/// Encryption status of the engine or of a file.
#[derive(Debug, Clone)]
pub struct EncryptionStatus {
    pub is_encrypted: bool,
    pub algorithm: Option<String>,
    pub nist_level: Option<u8>,
    pub key_id: Option<String>,
    pub encrypted_at: Option<String>,
}

/// HKDF info for file keys.
pub open spec fn file_key_info() -> Seq<u8> {
    "cybermanju-file-encryption-v1".spec_bytes()
}

/// HKDF salt for the X25519 static secret.
pub open spec fn x25519_salt() -> Seq<u8> {
    "cybermanju-x25519-static-derivation".spec_bytes()
}

/// HKDF info for the X25519 static secret.
pub open spec fn x25519_info() -> Seq<u8> {
    "x25519-static-secret".spec_bytes()
}

/// The ChaCha20Poly1305 key derived from the KEM shared secret and, in hybrid mode, the
/// X25519 shared secret (both contribute to the HKDF input).
pub open spec fn symmetric_key(pqc_secret: Seq<u8>, classical_secret: Seq<u8>) -> Seq<u8> {
    hkdf_sha256_okm(None, pqc_secret + classical_secret, file_key_info(), 32)
}

/// The X25519 static secret derived from an ML-KEM secret key.
pub open spec fn x25519_static_secret(mlkem_secret_key: Seq<u8>) -> Seq<u8> {
    hkdf_sha256_okm(Some(x25519_salt()), mlkem_secret_key, x25519_info(), 32)
}

fn concat_bytes(a: &[u8], b: &[u8]) -> (r: Vec<u8>)
    ensures
        r@ == a@ + b@,
{
    let mut r: Vec<u8> = Vec::new();
    for i in 0..a.len()
        invariant
            r@ == a@.take(i as int),
    {
        r.push(a[i]);
    }
    assert(a@.take(a@.len() as int) == a@);
    for j in 0..b.len()
        invariant
            r@ == a@ + b@.take(j as int),
    {
        r.push(b[j]);
        assert(a@ + b@.take(j + 1) == (a@ + b@.take(j as int)).push(b@[j as int]));
    }
    assert(b@.take(b@.len() as int) == b@);
    r
}

fn array32(v: &[u8]) -> (r: [u8; 32])
    requires
        v@.len() == 32,
    ensures
        r@ == v@,
{
    let mut r = [0u8; 32];
    for i in 0..32
        invariant
            v@.len() == 32,
            forall|j: int| 0 <= j < i ==> r@[j] == v@[j],
    {
        r[i] = v[i];
    }
    assert(r@ =~= v@);
    r
}

pub(crate) fn first_bytes(v: &[u8], n: usize) -> (r: Vec<u8>)
    requires
        n <= v@.len(),
    ensures
        r@ == v@.take(n as int),
{
    let mut r: Vec<u8> = Vec::new();
    for i in 0..n
        invariant
            n <= v@.len(),
            r@ == v@.take(i as int),
    {
        r.push(v[i]);
        assert(v@.take(i + 1) == v@.take(i as int).push(v@[i as int]));
    }
    r
}

/// Derive the 32-byte ChaCha20Poly1305 key from the KEM shared secret(s) with HKDF-SHA256.
fn derive_symmetric_key(pqc_shared_secret: &[u8], classical_shared_secret: Option<&[u8]>) -> (r: Vec<u8>)
    ensures
        r@ == symmetric_key(
            pqc_shared_secret@,
            match classical_shared_secret {
                Some(c) => c@,
                None => Seq::empty(),
            },
        ),
        r@.len() == 32,
{
    let empty: Vec<u8> = Vec::new();
    let ikm = match classical_shared_secret {
        Some(c) => concat_bytes(pqc_shared_secret, c),
        None => concat_bytes(pqc_shared_secret, empty.as_slice()),
    };
    hkdf_sha256_expand(None, ikm.as_slice(), "cybermanju-file-encryption-v1".as_bytes(), 32)
}

/// Derive the X25519 static secret from the ML-KEM secret key with HKDF-SHA256, so that the
/// same key pair serves both halves of hybrid mode.
fn derive_x25519_static_secret(mlkem_sk: &[u8]) -> (r: [u8; 32])
    ensures
        r@ == x25519_static_secret(mlkem_sk@),
{
    let okm = hkdf_sha256_expand(
        Some("cybermanju-x25519-static-derivation".as_bytes()),
        mlkem_sk,
        "x25519-static-secret".as_bytes(),
        32,
    );
    array32(okm.as_slice())
}

/// A fresh random 96-bit nonce from the operating system's generator.
pub fn generate_random_nonce() -> [u8; 12] {
    let bytes = random_bytes(12);
    let mut nonce = [0u8; 12];
    for i in 0..12
        invariant
            bytes@.len() == 12,
    {
        nonce[i] = bytes[i];
    }
    nonce
}

/// The error that the key pair's own shape causes before any encryption is tried.
pub open spec fn encrypt_key_error(kp: KeyPairModel) -> Option<PqcError> {
    match kp.algorithm {
        EncryptionAlgo::Kyber1024 => if kp.public_key.len() != MLKEM1024_PUBLIC_KEY_BYTES {
            Some(PqcError::InvalidPublicKeyLength { expected: MLKEM1024_PUBLIC_KEY_BYTES, got: kp.public_key.len() as usize })
        } else {
            None
        },
        EncryptionAlgo::Hybrid => if kp.public_key.len() != MLKEM768_PUBLIC_KEY_BYTES {
            Some(PqcError::InvalidPublicKeyLength { expected: MLKEM768_PUBLIC_KEY_BYTES, got: kp.public_key.len() as usize })
        } else {
            None
        },
        EncryptionAlgo::MlDsa44 | EncryptionAlgo::MlDsa65 | EncryptionAlgo::MlDsa87 => Some(PqcError::SignatureOnlyKey),
        _ => if kp.private_key.len() < 32 {
            Some(PqcError::PrivateKeyTooShort(kp.private_key.len() as usize))
        } else {
            None
        },
    }
}

/// Whether an ML-KEM key pair's halves belong together (the secret key of the right length
/// and the public key its own); the other algorithms have nothing to match.
pub open spec fn kem_keys_match(kp: KeyPairModel) -> bool {
    match kp.algorithm {
        EncryptionAlgo::Kyber1024 => kp.private_key.len() == MLKEM1024_SECRET_KEY_BYTES && mlkem1024_pair(
            kp.public_key,
            kp.private_key,
        ),
        EncryptionAlgo::Hybrid => kp.private_key.len() == MLKEM768_SECRET_KEY_BYTES && mlkem768_pair(
            kp.public_key,
            kp.private_key,
        ),
        _ => true,
    }
}

/// The algorithm label recorded with encrypted data.
pub open spec fn sealed_label(algo: EncryptionAlgo) -> Seq<char> {
    algo.display_name_spec() + "+ChaCha20Poly1305"@
}

/// What holds of data that `encrypt_data` produced from `plaintext` with key pair `kp`.
/// For the symmetric algorithms it includes that the ciphertext opens, under the first 32
/// bytes of the private key, to the plaintext; for the ML-KEM algorithms the key comes from
/// a randomized encapsulation, and only the shape of the KEM data is recorded.
pub open spec fn encrypted_for(enc: FileEncryptedData, kp: KeyPairModel, plaintext: Seq<u8>) -> bool {
    &&& enc.key_id@ == kp.id
    &&& enc.algorithm@ == sealed_label(kp.algorithm)
    &&& enc.blake3_original@ == blake3_hex(plaintext)
    &&& enc.ciphertext@.len() == plaintext.len() + 16
    &&& match kp.algorithm {
        EncryptionAlgo::Kyber1024 => enc.kem_ciphertext@.len() == MLKEM1024_CIPHERTEXT_BYTES
            && enc.x25519_ephemeral_pk is None,
        EncryptionAlgo::Hybrid => enc.kem_ciphertext@.len() == MLKEM768_CIPHERTEXT_BYTES
            && (enc.x25519_ephemeral_pk matches Some(e) && e@.len() == 32),
        _ => enc.kem_ciphertext@.len() == 0 && enc.x25519_ephemeral_pk is None
            && chacha_sealed(kp.private_key.take(32), enc.nonce@, plaintext) == Some(enc.ciphertext@)
            && chacha_opened(kp.private_key.take(32), enc.nonce@, enc.ciphertext@) == Some(plaintext),
    }
}

/// The ChaCha20Poly1305 key that `decrypt_data` derives, or the error that stops it first.
pub open spec fn decryption_key(enc: FileEncryptedData, kp: KeyPairModel) -> Result<Seq<u8>, PqcError> {
    match kp.algorithm {
        EncryptionAlgo::Kyber1024 => if enc.kem_ciphertext@.len() != MLKEM1024_CIPHERTEXT_BYTES {
            Err(PqcError::InvalidKemCiphertextLength {
                expected: MLKEM1024_CIPHERTEXT_BYTES,
                got: enc.kem_ciphertext@.len() as usize,
            })
        } else if kp.private_key.len() != MLKEM1024_SECRET_KEY_BYTES {
            Err(PqcError::InvalidSecretKeyLength { expected: MLKEM1024_SECRET_KEY_BYTES, got: kp.private_key.len() as usize })
        } else {
            Ok(symmetric_key(mlkem1024_decapsulated(enc.kem_ciphertext@, kp.private_key), Seq::empty()))
        },
        EncryptionAlgo::Hybrid => if enc.kem_ciphertext@.len() != MLKEM768_CIPHERTEXT_BYTES {
            Err(PqcError::InvalidKemCiphertextLength {
                expected: MLKEM768_CIPHERTEXT_BYTES,
                got: enc.kem_ciphertext@.len() as usize,
            })
        } else if kp.private_key.len() != MLKEM768_SECRET_KEY_BYTES {
            Err(PqcError::InvalidSecretKeyLength { expected: MLKEM768_SECRET_KEY_BYTES, got: kp.private_key.len() as usize })
        } else {
            match enc.x25519_ephemeral_pk {
                Some(e) => if e@.len() == 32 {
                    Ok(symmetric_key(
                        mlkem768_decapsulated(enc.kem_ciphertext@, kp.private_key),
                        x25519_dh(x25519_static_secret(kp.private_key), e@),
                    ))
                } else {
                    Err(PqcError::MissingEphemeralKey)
                },
                None => Err(PqcError::MissingEphemeralKey),
            }
        },
        EncryptionAlgo::MlDsa44 | EncryptionAlgo::MlDsa65 | EncryptionAlgo::MlDsa87 => Err(PqcError::SignatureOnlyKey),
        _ => if kp.private_key.len() < 32 {
            Err(PqcError::PrivateKeyTooShort(kp.private_key.len() as usize))
        } else {
            Ok(kp.private_key.take(32))
        },
    }
}

/// What `decrypt_data` gives for encrypted data and a key pair: the plaintext when the
/// ciphertext authenticates under the derived key and has the recorded BLAKE3 hash.
pub open spec fn decrypt_outcome(enc: FileEncryptedData, kp: KeyPairModel) -> Result<Seq<u8>, PqcError> {
    match decryption_key(enc, kp) {
        Err(e) => Err(e),
        Ok(key) => match chacha_opened(key, enc.nonce@, enc.ciphertext@) {
            None => Err(PqcError::DecryptionFailed),
            Some(p) => if blake3_hex(p) == enc.blake3_original@ {
                Ok(p)
            } else {
                Err(PqcError::IntegrityCheckFailed)
            },
        },
    }
}

fn sealed_label_string(algo: &EncryptionAlgo) -> (s: String)
    ensures
        s@ == sealed_label(*algo),
{
    let mut s = String::from_str(algo.display_name());
    s.append("+ChaCha20Poly1305");
    s
}

/// Encrypt `plaintext` for `keypair`: encapsulate a fresh shared secret (ML-KEM-1024, or
/// ML-KEM-768 plus an X25519 exchange in hybrid mode) or take the first 32 bytes of the
/// symmetric key, derive the ChaCha20Poly1305 key, and seal under a random nonce. With a key
/// pair whose ML-KEM halves belong together (`kem_keys_match`), `decrypt_data` gives the
/// plaintext back.
pub fn encrypt_data(plaintext: &[u8], keypair: &KeyPair) -> (r: Result<FileEncryptedData, PqcError>)
    ensures
        encrypt_key_error(keypair@) matches Some(e) ==> r == Err::<FileEncryptedData, PqcError>(e),
        encrypt_key_error(keypair@) is None ==> (r is Ok <==> plaintext@.len() < CHACHA_MAX_PLAINTEXT),
        r matches Err(e) ==> encrypt_key_error(keypair@) == Some(e) || (e == PqcError::EncryptionFailed
            && plaintext@.len() >= CHACHA_MAX_PLAINTEXT),
        r matches Ok(enc) ==> encrypted_for(enc, keypair@, plaintext@),
        r matches Ok(enc) ==> (kem_keys_match(keypair@) ==> decrypt_outcome(enc, keypair@) == Ok::<Seq<u8>, PqcError>(
            plaintext@,
        )),
{
    let nonce = generate_random_nonce();
    let (derived_key, kem_ciphertext, x25519_ephemeral_pk): (Vec<u8>, Vec<u8>, Option<Vec<u8>>) =
        match keypair.algorithm {
        EncryptionAlgo::Kyber1024 => {
            if keypair.public_key.len() != MLKEM1024_PUBLIC_KEY_BYTES {
                return Err(PqcError::InvalidPublicKeyLength {
                    expected: MLKEM1024_PUBLIC_KEY_BYTES,
                    got: keypair.public_key.len(),
                });
            }
            let (shared_secret, ciphertext) = mlkem1024_encapsulate(keypair.public_key.as_slice());
            let key = derive_symmetric_key(shared_secret.as_slice(), None);
            (key, ciphertext, None)
        },
        EncryptionAlgo::Hybrid => {
            if keypair.public_key.len() != MLKEM768_PUBLIC_KEY_BYTES {
                return Err(PqcError::InvalidPublicKeyLength {
                    expected: MLKEM768_PUBLIC_KEY_BYTES,
                    got: keypair.public_key.len(),
                });
            }
            let (shared_secret, kem_ct) = mlkem768_encapsulate(keypair.public_key.as_slice());
            let static_secret = derive_x25519_static_secret(keypair.private_key.as_slice());
            let ephemeral_bytes = x25519_random_secret();
            let ephemeral_secret = array32(ephemeral_bytes.as_slice());
            let ephemeral_public = x25519_public_key(&ephemeral_secret);
            let static_public = array32(x25519_public_key(&static_secret).as_slice());
            let x25519_shared = x25519_diffie_hellman(&ephemeral_secret, &static_public);
            let key = derive_symmetric_key(shared_secret.as_slice(), Some(x25519_shared.as_slice()));
            (key, kem_ct, Some(ephemeral_public))
        },
        EncryptionAlgo::MlDsa44 | EncryptionAlgo::MlDsa65 | EncryptionAlgo::MlDsa87 => {
            return Err(PqcError::SignatureOnlyKey);
        },
        _ => {
            if keypair.private_key.len() < 32 {
                return Err(PqcError::PrivateKeyTooShort(keypair.private_key.len()));
            }
            (first_bytes(keypair.private_key.as_slice(), 32), Vec::new(), None)
        },
    };
    let ciphertext = match chacha_encrypt(derived_key.as_slice(), &nonce, plaintext) {
        Some(c) => c,
        None => return Err(PqcError::EncryptionFailed),
    };
    let blake3_original = blake3_hex_digest(plaintext);
    Ok(FileEncryptedData {
        ciphertext,
        nonce,
        algorithm: sealed_label_string(&keypair.algorithm),
        key_id: keypair.id.clone(),
        kem_ciphertext,
        x25519_ephemeral_pk,
        blake3_original,
        encrypted_at: now_rfc3339(),
    })
}

/// Decrypt data produced by `encrypt_data`: recover the symmetric key (ML-KEM decapsulation,
/// plus the X25519 exchange with the stored ephemeral key in hybrid mode, or the first 32
/// bytes of the symmetric key), open the ciphertext, and check the BLAKE3 hash.
pub fn decrypt_data(encrypted: &FileEncryptedData, keypair: &KeyPair) -> (r: Result<Vec<u8>, PqcError>)
    ensures
        match r {
            Ok(p) => decrypt_outcome(*encrypted, keypair@) == Ok::<Seq<u8>, PqcError>(p@),
            Err(e) => decrypt_outcome(*encrypted, keypair@) == Err::<Seq<u8>, PqcError>(e),
        },
{
    let derived_key: Vec<u8> = match keypair.algorithm {
        EncryptionAlgo::Kyber1024 => {
            if encrypted.kem_ciphertext.len() != MLKEM1024_CIPHERTEXT_BYTES {
                return Err(PqcError::InvalidKemCiphertextLength {
                    expected: MLKEM1024_CIPHERTEXT_BYTES,
                    got: encrypted.kem_ciphertext.len(),
                });
            }
            if keypair.private_key.len() != MLKEM1024_SECRET_KEY_BYTES {
                return Err(PqcError::InvalidSecretKeyLength {
                    expected: MLKEM1024_SECRET_KEY_BYTES,
                    got: keypair.private_key.len(),
                });
            }
            let shared_secret = mlkem1024_decapsulate(encrypted.kem_ciphertext.as_slice(), keypair.private_key.as_slice());
            derive_symmetric_key(shared_secret.as_slice(), None)
        },
        EncryptionAlgo::Hybrid => {
            if encrypted.kem_ciphertext.len() != MLKEM768_CIPHERTEXT_BYTES {
                return Err(PqcError::InvalidKemCiphertextLength {
                    expected: MLKEM768_CIPHERTEXT_BYTES,
                    got: encrypted.kem_ciphertext.len(),
                });
            }
            if keypair.private_key.len() != MLKEM768_SECRET_KEY_BYTES {
                return Err(PqcError::InvalidSecretKeyLength {
                    expected: MLKEM768_SECRET_KEY_BYTES,
                    got: keypair.private_key.len(),
                });
            }
            let shared_secret = mlkem768_decapsulate(encrypted.kem_ciphertext.as_slice(), keypair.private_key.as_slice());
            let static_secret = derive_x25519_static_secret(keypair.private_key.as_slice());
            let ephemeral_pk = match &encrypted.x25519_ephemeral_pk {
                Some(pk) => {
                    if pk.len() != 32 {
                        return Err(PqcError::MissingEphemeralKey);
                    }
                    array32(pk.as_slice())
                },
                None => return Err(PqcError::MissingEphemeralKey),
            };
            let x25519_shared = x25519_diffie_hellman(&static_secret, &ephemeral_pk);
            derive_symmetric_key(shared_secret.as_slice(), Some(x25519_shared.as_slice()))
        },
        EncryptionAlgo::MlDsa44 | EncryptionAlgo::MlDsa65 | EncryptionAlgo::MlDsa87 => {
            return Err(PqcError::SignatureOnlyKey);
        },
        _ => {
            if keypair.private_key.len() < 32 {
                return Err(PqcError::PrivateKeyTooShort(keypair.private_key.len()));
            }
            first_bytes(keypair.private_key.as_slice(), 32)
        },
    };
    let plaintext = match chacha_decrypt(derived_key.as_slice(), &encrypted.nonce, encrypted.ciphertext.as_slice()) {
        Some(p) => p,
        None => return Err(PqcError::DecryptionFailed),
    };
    let decrypted_hash = blake3_hex_digest(plaintext.as_slice());
    if decrypted_hash != encrypted.blake3_original {
        return Err(PqcError::IntegrityCheckFailed);
    }
    Ok(plaintext)
}

/// Decrypting what `encrypt_data` produced with a symmetric key pair (`Aes256` or
/// `ClassicalSign`) gives the plaintext back.
pub proof fn symmetric_roundtrip(enc: FileEncryptedData, kp: KeyPairModel, plaintext: Seq<u8>)
    requires
        kp.algorithm == EncryptionAlgo::Aes256 || kp.algorithm == EncryptionAlgo::ClassicalSign,
        encrypt_key_error(kp) is None,
        encrypted_for(enc, kp, plaintext),
    ensures
        decrypt_outcome(enc, kp) == Ok::<Seq<u8>, PqcError>(plaintext),
{
}

/// The signature `sign_message` makes: ML-DSA with the encoded signing key for the ML-DSA
/// algorithms (refused when the key has the wrong length), HMAC-SHA512 under the private
/// key for the others.
pub open spec fn signature_of(kp: KeyPairModel, message: Seq<u8>) -> Result<Seq<u8>, PqcError> {
    match kp.algorithm {
        EncryptionAlgo::MlDsa44 => if kp.private_key.len() != MLDSA44_SIGNING_KEY_BYTES {
            Err(PqcError::InvalidSecretKeyLength { expected: MLDSA44_SIGNING_KEY_BYTES, got: kp.private_key.len() as usize })
        } else {
            Ok(mldsa44_signature(kp.private_key, message))
        },
        EncryptionAlgo::MlDsa65 => if kp.private_key.len() != MLDSA65_SIGNING_KEY_BYTES {
            Err(PqcError::InvalidSecretKeyLength { expected: MLDSA65_SIGNING_KEY_BYTES, got: kp.private_key.len() as usize })
        } else {
            Ok(mldsa65_signature(kp.private_key, message))
        },
        EncryptionAlgo::MlDsa87 => if kp.private_key.len() != MLDSA87_SIGNING_KEY_BYTES {
            Err(PqcError::InvalidSecretKeyLength { expected: MLDSA87_SIGNING_KEY_BYTES, got: kp.private_key.len() as usize })
        } else {
            Ok(mldsa87_signature(kp.private_key, message))
        },
        _ => Ok(hmac_sha512_tag(kp.private_key, message)),
    }
}

/// The length of a signature of the algorithm.
pub open spec fn signature_len(algo: EncryptionAlgo) -> nat {
    match algo {
        EncryptionAlgo::MlDsa44 => MLDSA44_SIGNATURE_BYTES as nat,
        EncryptionAlgo::MlDsa65 => MLDSA65_SIGNATURE_BYTES as nat,
        EncryptionAlgo::MlDsa87 => MLDSA87_SIGNATURE_BYTES as nat,
        _ => 64,
    }
}

/// What `verify_signature` answers: for ML-DSA, whether the encoded verifying key accepts
/// the signature (a verifying key of the wrong length is refused; a signature of the wrong
/// length or that does not decode is not accepted); for the others, whether the signature
/// is the HMAC-SHA512 tag under the private key.
pub open spec fn verdict_of(kp: KeyPairModel, message: Seq<u8>, signature: Seq<u8>) -> Result<bool, PqcError> {
    match kp.algorithm {
        EncryptionAlgo::MlDsa44 => if kp.public_key.len() != MLDSA44_VERIFYING_KEY_BYTES {
            Err(PqcError::InvalidPublicKeyLength { expected: MLDSA44_VERIFYING_KEY_BYTES, got: kp.public_key.len() as usize })
        } else if signature.len() != MLDSA44_SIGNATURE_BYTES {
            Ok(false)
        } else {
            Ok(mldsa44_accepts(kp.public_key, message, signature) == Some(true))
        },
        EncryptionAlgo::MlDsa65 => if kp.public_key.len() != MLDSA65_VERIFYING_KEY_BYTES {
            Err(PqcError::InvalidPublicKeyLength { expected: MLDSA65_VERIFYING_KEY_BYTES, got: kp.public_key.len() as usize })
        } else if signature.len() != MLDSA65_SIGNATURE_BYTES {
            Ok(false)
        } else {
            Ok(mldsa65_accepts(kp.public_key, message, signature) == Some(true))
        },
        EncryptionAlgo::MlDsa87 => if kp.public_key.len() != MLDSA87_VERIFYING_KEY_BYTES {
            Err(PqcError::InvalidPublicKeyLength { expected: MLDSA87_VERIFYING_KEY_BYTES, got: kp.public_key.len() as usize })
        } else if signature.len() != MLDSA87_SIGNATURE_BYTES {
            Ok(false)
        } else {
            Ok(mldsa87_accepts(kp.public_key, message, signature) == Some(true))
        },
        _ => Ok(signature == hmac_sha512_tag(kp.private_key, message)),
    }
}

fn accepted(v: Option<bool>) -> (r: bool)
    ensures
        r == (v == Some(true)),
{
    match v {
        Some(b) => b,
        None => false,
    }
}

/// Sign `message` with the key pair: ML-DSA for the ML-DSA algorithms, HMAC-SHA512 under the
/// private key (of any length) for the others.
pub fn sign_message(message: &[u8], keypair: &KeyPair) -> (r: Result<Vec<u8>, PqcError>)
    ensures
        match signature_of(keypair@, message@) {
            Ok(s) => r matches Ok(sig) && sig@ == s,
            Err(e) => r == Err::<Vec<u8>, PqcError>(e),
        },
        r matches Ok(sig) ==> sig@.len() == signature_len(keypair@.algorithm),
{
    let k = keypair.private_key.len();
    match keypair.algorithm {
        EncryptionAlgo::MlDsa44 => {
            if k != MLDSA44_SIGNING_KEY_BYTES {
                return Err(PqcError::InvalidSecretKeyLength { expected: MLDSA44_SIGNING_KEY_BYTES, got: k });
            }
            Ok(mldsa44_sign(message, keypair.private_key.as_slice()))
        },
        EncryptionAlgo::MlDsa65 => {
            if k != MLDSA65_SIGNING_KEY_BYTES {
                return Err(PqcError::InvalidSecretKeyLength { expected: MLDSA65_SIGNING_KEY_BYTES, got: k });
            }
            Ok(mldsa65_sign(message, keypair.private_key.as_slice()))
        },
        EncryptionAlgo::MlDsa87 => {
            if k != MLDSA87_SIGNING_KEY_BYTES {
                return Err(PqcError::InvalidSecretKeyLength { expected: MLDSA87_SIGNING_KEY_BYTES, got: k });
            }
            Ok(mldsa87_sign(message, keypair.private_key.as_slice()))
        },
        _ => Ok(hmac_sha512(keypair.private_key.as_slice(), message)),
    }
}

/// Check a signature of `message` against the key pair (see `verdict_of`); HMAC tags are
/// compared in constant time.
pub fn verify_signature(message: &[u8], signature_bytes: &[u8], keypair: &KeyPair) -> (r: Result<bool, PqcError>)
    ensures
        match verdict_of(keypair@, message@, signature_bytes@) {
            Ok(b) => r == Ok::<bool, PqcError>(b),
            Err(e) => r == Err::<bool, PqcError>(e),
        },
{
    let p = keypair.public_key.len();
    let n = signature_bytes.len();
    match keypair.algorithm {
        EncryptionAlgo::MlDsa44 => {
            if p != MLDSA44_VERIFYING_KEY_BYTES {
                return Err(PqcError::InvalidPublicKeyLength { expected: MLDSA44_VERIFYING_KEY_BYTES, got: p });
            }
            if n != MLDSA44_SIGNATURE_BYTES {
                return Ok(false);
            }
            Ok(accepted(mldsa44_verify(message, signature_bytes, keypair.public_key.as_slice())))
        },
        EncryptionAlgo::MlDsa65 => {
            if p != MLDSA65_VERIFYING_KEY_BYTES {
                return Err(PqcError::InvalidPublicKeyLength { expected: MLDSA65_VERIFYING_KEY_BYTES, got: p });
            }
            if n != MLDSA65_SIGNATURE_BYTES {
                return Ok(false);
            }
            Ok(accepted(mldsa65_verify(message, signature_bytes, keypair.public_key.as_slice())))
        },
        EncryptionAlgo::MlDsa87 => {
            if p != MLDSA87_VERIFYING_KEY_BYTES {
                return Err(PqcError::InvalidPublicKeyLength { expected: MLDSA87_VERIFYING_KEY_BYTES, got: p });
            }
            if n != MLDSA87_SIGNATURE_BYTES {
                return Ok(false);
            }
            Ok(accepted(mldsa87_verify(message, signature_bytes, keypair.public_key.as_slice())))
        },
        _ => Ok(hmac_sha512_verify(keypair.private_key.as_slice(), message, signature_bytes)),
    }
}

/// A signature that `sign_message` makes with a well-formed key pair passes
/// `verify_signature` with the same key pair and message.
pub proof fn signature_verifies(kp: KeyPairModel, message: Seq<u8>)
    requires
        key_material_ok(kp),
    ensures
        signature_of(kp, message) matches Ok(sig) && verdict_of(kp, message, sig) == Ok::<bool, PqcError>(true),
{
    match kp.algorithm {
        EncryptionAlgo::MlDsa44 => {
            assert(mldsa44_accepts(kp.public_key, message, mldsa44_signature(kp.private_key, message)) == Some(true));
        },
        EncryptionAlgo::MlDsa65 => {
            assert(mldsa65_accepts(kp.public_key, message, mldsa65_signature(kp.private_key, message)) == Some(true));
        },
        EncryptionAlgo::MlDsa87 => {
            assert(mldsa87_accepts(kp.public_key, message, mldsa87_signature(kp.private_key, message)) == Some(true));
        },
        _ => {},
    }
}

/// The algorithm named by a frontend string, accepting older names: the Dilithium names are
/// the ML-DSA parameter sets (2, 3 and 5 for ML-DSA-44, -65 and -87).
pub open spec fn algorithm_named(s: Seq<char>) -> Option<EncryptionAlgo> {
    if s == "kyber1024"@ {
        Some(EncryptionAlgo::Kyber1024)
    } else if s == "kyber768"@ || s == "kyber512"@ || s == "hybrid"@ {
        Some(EncryptionAlgo::Hybrid)
    } else if s == "ml-dsa-44"@ || s == "ml_dsa44"@ || s == "dilithium2"@ {
        Some(EncryptionAlgo::MlDsa44)
    } else if s == "ml-dsa-65"@ || s == "ml_dsa65"@ || s == "dilithium3"@ {
        Some(EncryptionAlgo::MlDsa65)
    } else if s == "ml-dsa-87"@ || s == "ml_dsa87"@ || s == "dilithium5"@ {
        Some(EncryptionAlgo::MlDsa87)
    } else if s == "sphincsplus"@ || s == "sphincs+"@ || s == "classical_sign"@ || s == "hmac"@ {
        Some(EncryptionAlgo::ClassicalSign)
    } else if s == "aes256"@ || s == "chacha20"@ {
        Some(EncryptionAlgo::Aes256)
    } else {
        None
    }
}

/// Map a frontend algorithm string (e.g. `kyber1024`) to the algorithm.
pub fn algorithm_from_str(s: &str) -> (r: Option<EncryptionAlgo>)
    ensures
        r == algorithm_named(s@),
{
    let c = chars_of(s);
    if eq_lit(&c, "kyber1024") {
        Some(EncryptionAlgo::Kyber1024)
    } else if eq_lit(&c, "kyber768") || eq_lit(&c, "kyber512") || eq_lit(&c, "hybrid") {
        Some(EncryptionAlgo::Hybrid)
    } else if eq_lit(&c, "ml-dsa-44") || eq_lit(&c, "ml_dsa44") || eq_lit(&c, "dilithium2") {
        Some(EncryptionAlgo::MlDsa44)
    } else if eq_lit(&c, "ml-dsa-65") || eq_lit(&c, "ml_dsa65") || eq_lit(&c, "dilithium3") {
        Some(EncryptionAlgo::MlDsa65)
    } else if eq_lit(&c, "ml-dsa-87") || eq_lit(&c, "ml_dsa87") || eq_lit(&c, "dilithium5") {
        Some(EncryptionAlgo::MlDsa87)
    } else if eq_lit(&c, "sphincsplus") || eq_lit(&c, "sphincs+") || eq_lit(&c, "classical_sign") || eq_lit(
        &c,
        "hmac",
    ) {
        Some(EncryptionAlgo::ClassicalSign)
    } else if eq_lit(&c, "aes256") || eq_lit(&c, "chacha20") {
        Some(EncryptionAlgo::Aes256)
    } else {
        None
    }
}

} // verus!
