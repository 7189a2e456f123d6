//! The text form of encrypted-file metadata: binary fields in Base64, stored beside the
//! encrypted file.
use vstd::prelude::*;

use crate::crypto::pqc::{FileEncryptedData, PqcError};
use crate::crypto::primitives::{base64_bytes, base64_decode, base64_encode, base64_text};

verus! {

/// Metadata of an encrypted file, with the binary fields Base64-encoded.
#[derive(Debug, Clone)]
pub struct EncryptedFileMeta {
    pub nonce: String,
    pub algorithm: String,
    pub key_id: String,
    pub kem_ciphertext: String,
    pub x25519_ephemeral_pk: Option<String>,
    pub blake3_original: String,
    pub encrypted_at: String,
}

/// The binary fields that a metadata record decodes to.
pub struct DecodedMeta {
    pub nonce: Seq<u8>,
    pub kem_ciphertext: Seq<u8>,
    pub x25519_ephemeral_pk: Option<Seq<u8>>,
}

/// Decode the binary fields of `meta`: the nonce must be Base64 of exactly 12 bytes; an empty
/// KEM ciphertext text stands for no bytes; an absent or empty ephemeral key text for none.
pub open spec fn decode_meta(meta: EncryptedFileMeta) -> Result<DecodedMeta, PqcError> {
    match base64_bytes(meta.nonce@) {
        None => Err(PqcError::InvalidBase64),
        Some(nonce) => if nonce.len() != 12 {
            Err(PqcError::InvalidNonceLength(nonce.len() as usize))
        } else {
            let kem = if meta.kem_ciphertext@.len() == 0 {
                Some(Seq::<u8>::empty())
            } else {
                base64_bytes(meta.kem_ciphertext@)
            };
            match kem {
                None => Err(PqcError::InvalidBase64),
                Some(kem_ciphertext) => match meta.x25519_ephemeral_pk {
                    Some(t) if t@.len() > 0 => match base64_bytes(t@) {
                        None => Err(PqcError::InvalidBase64),
                        Some(pk) => Ok(DecodedMeta { nonce, kem_ciphertext, x25519_ephemeral_pk: Some(pk) }),
                    },
                    _ => Ok(DecodedMeta { nonce, kem_ciphertext, x25519_ephemeral_pk: None }),
                },
            }
        },
    }
}

/// The ephemeral key of encrypted data, by its bytes.
pub open spec fn ephemeral_key(data: FileEncryptedData) -> Option<Seq<u8>> {
    match data.x25519_ephemeral_pk {
        Some(p) => Some(p@),
        None => None,
    }
}

fn encode_optional(pk: &Option<Vec<u8>>) -> (r: Option<String>)
    ensures
        match (r, *pk) {
            (Some(t), Some(p)) => t@ == base64_text(p@) && t@.len() == 4 * ((p@.len() + 2) / 3)
                && base64_bytes(t@) == Some(p@),
            (None, None) => true,
            _ => false,
        },
{
    match pk {
        Some(p) => Some(base64_encode(p.as_slice())),
        None => None,
    }
}

impl EncryptedFileMeta {
    /// The metadata of encrypted data (everything but the ciphertext). Decoding it gives the
    /// nonce, KEM ciphertext and ephemeral key back, unless the ephemeral key is present but
    /// empty (it then reads back as absent).
    pub fn from_encrypted_data(data: &FileEncryptedData) -> (r: EncryptedFileMeta)
        ensures
            r.nonce@ == base64_text(data.nonce@),
            r.algorithm@ == data.algorithm@,
            r.key_id@ == data.key_id@,
            r.kem_ciphertext@ == base64_text(data.kem_ciphertext@),
            match (r.x25519_ephemeral_pk, data.x25519_ephemeral_pk) {
                (Some(t), Some(p)) => t@ == base64_text(p@),
                (None, None) => true,
                _ => false,
            },
            r.blake3_original@ == data.blake3_original@,
            r.encrypted_at@ == data.encrypted_at@,
            !(data.x25519_ephemeral_pk matches Some(p) && p@.len() == 0) ==> decode_meta(r) == Ok::<
                DecodedMeta,
                PqcError,
            >(
                DecodedMeta {
                    nonce: data.nonce@,
                    kem_ciphertext: data.kem_ciphertext@,
                    x25519_ephemeral_pk: ephemeral_key(*data),
                },
            ),
    {
        let nonce = base64_encode(&data.nonce);
        let kem_ciphertext = base64_encode(data.kem_ciphertext.as_slice());
        let x25519_ephemeral_pk = encode_optional(&data.x25519_ephemeral_pk);
        let r = EncryptedFileMeta {
            nonce,
            algorithm: data.algorithm.clone(),
            key_id: data.key_id.clone(),
            kem_ciphertext,
            x25519_ephemeral_pk,
            blake3_original: data.blake3_original.clone(),
            encrypted_at: data.encrypted_at.clone(),
        };
        proof {
            if data.kem_ciphertext@.len() == 0 {
                assert(data.kem_ciphertext@ =~= Seq::<u8>::empty());
            }
        }
        r
    }

    /// Rebuild encrypted data from this metadata and the ciphertext bytes, decoding the
    /// Base64 fields as `decode_meta` says.
    pub fn to_encrypted_data(&self, ciphertext: Vec<u8>) -> (r: Result<FileEncryptedData, PqcError>)
        ensures
            match r {
                Ok(d) => {
                    &&& decode_meta(*self) == Ok::<DecodedMeta, PqcError>(
                        DecodedMeta {
                            nonce: d.nonce@,
                            kem_ciphertext: d.kem_ciphertext@,
                            x25519_ephemeral_pk: ephemeral_key(d),
                        },
                    )
                    &&& d.ciphertext@ == ciphertext@
                    &&& d.algorithm@ == self.algorithm@
                    &&& d.key_id@ == self.key_id@
                    &&& d.blake3_original@ == self.blake3_original@
                    &&& d.encrypted_at@ == self.encrypted_at@
                },
                Err(e) => decode_meta(*self) == Err::<DecodedMeta, PqcError>(e),
            },
    {
        let nonce_bytes = match base64_decode(self.nonce.as_str()) {
            Ok(b) => b,
            Err(_) => return Err(PqcError::InvalidBase64),
        };
        if nonce_bytes.len() != 12 {
            return Err(PqcError::InvalidNonceLength(nonce_bytes.len()));
        }
        let mut nonce = [0u8; 12];
        for i in 0..12
            invariant
                nonce_bytes@.len() == 12,
                forall|j: int| 0 <= j < i ==> nonce@[j] == nonce_bytes@[j],
        {
            nonce[i] = nonce_bytes[i];
        }
        assert(nonce@ =~= nonce_bytes@);
        let kem_ciphertext = if self.kem_ciphertext.unicode_len() == 0 {
            Vec::new()
        } else {
            match base64_decode(self.kem_ciphertext.as_str()) {
                Ok(b) => b,
                Err(_) => return Err(PqcError::InvalidBase64),
            }
        };
        let x25519_ephemeral_pk = match &self.x25519_ephemeral_pk {
            Some(t) => {
                if t.unicode_len() > 0 {
                    match base64_decode(t.as_str()) {
                        Ok(b) => Some(b),
                        Err(_) => return Err(PqcError::InvalidBase64),
                    }
                } else {
                    None
                }
            },
            None => None,
        };
        Ok(FileEncryptedData {
            ciphertext,
            nonce,
            algorithm: self.algorithm.clone(),
            key_id: self.key_id.clone(),
            kem_ciphertext,
            x25519_ephemeral_pk,
            blake3_original: self.blake3_original.clone(),
            encrypted_at: self.encrypted_at.clone(),
        })
    }
}

} // verus!
