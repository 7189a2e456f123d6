//! The in-memory key store of the encryption engine.
use vstd::prelude::*;

use crate::crypto::pqc::{first_bytes, kem_keys_match, key_material_ok, EncryptionAlgo, EncryptionStatus, KeyPair, KeyPairModel, PqcError};
use crate::crypto::primitives::{
    base64_encode, base64_text, chacha_generate_key, mldsa44_generate, mldsa65_generate, mldsa87_generate,
    mlkem1024_keypair, mlkem768_keypair, new_uuid_v4, now_rfc3339, random_bytes, sha256_digest_bytes,
};

verus! {

/// No two key pairs share an id.
pub open spec fn ids_unique(keys: Seq<KeyPairModel>) -> bool {
    forall|i: int, j: int| 0 <= i < keys.len() && 0 <= j < keys.len() && i != j ==> keys[i].id != keys[j].id
}

/// Some key pair has the id.
pub open spec fn holds_id(keys: Seq<KeyPairModel>, id: Seq<char>) -> bool {
    exists|i: int| 0 <= i < keys.len() && keys[i].id == id
}

/// A position of a key pair with the id (the only one when ids are unique).
pub open spec fn position_of(keys: Seq<KeyPairModel>, id: Seq<char>) -> int {
    choose|i: int| 0 <= i < keys.len() && keys[i].id == id
}

/// The key pair stored under the id.
pub open spec fn key_with_id(keys: Seq<KeyPairModel>, id: Seq<char>) -> Option<KeyPairModel> {
    if holds_id(keys, id) {
        Some(keys[position_of(keys, id)])
    } else {
        None
    }
}

/// The key pairs after storing `kp`: it replaces the one with its id, or is added.
pub open spec fn insert_key(keys: Seq<KeyPairModel>, kp: KeyPairModel) -> Seq<KeyPairModel> {
    if holds_id(keys, kp.id) {
        keys.update(position_of(keys, kp.id), kp)
    } else {
        keys.push(kp)
    }
}

/// The public description of a stored key pair; it never carries the private key.
#[derive(Debug, Clone)]
pub struct KeyInfo {
    pub id: String,
    pub algorithm: EncryptionAlgo,
    pub algorithm_display: String,
    pub nist_level: u8,
    pub color: String,
    /// Base64 of the first (up to) 16 bytes of the public key.
    pub public_key_preview: String,
    pub public_key_bytes: usize,
    pub has_private_key: bool,
    pub created_at: String,
}

/// Whether `info` describes the key pair `kp`.
pub open spec fn describes(info: KeyInfo, kp: KeyPairModel) -> bool {
    &&& info.id@ == kp.id
    &&& info.algorithm == kp.algorithm
    &&& info.algorithm_display@ == kp.algorithm.display_name_spec()
    &&& info.nist_level == kp.algorithm.nist_level_spec()
    &&& info.color@ == kp.algorithm.color_spec()
    &&& info.public_key_preview@ == base64_text(
        kp.public_key.take(if kp.public_key.len() < 16 { kp.public_key.len() as int } else { 16 }),
    )
    &&& info.public_key_bytes == kp.public_key.len()
    &&& info.has_private_key == (kp.private_key.len() > 0)
    &&& info.created_at@ == kp.created_at
}

/// The encryption engine: key pairs held in memory and the id of the active one.
pub struct PqcEngine {
    keypairs: Vec<KeyPair>,
    active_key_id: Option<String>,
}

impl PqcEngine {
    /// The stored key pairs, in the order they were first stored.
    pub closed spec fn keys(&self) -> Seq<KeyPairModel> {
        self.keypairs@.map_values(|k: KeyPair| k@)
    }

    /// The id of the active key pair.
    pub closed spec fn active_id(&self) -> Option<Seq<char>> {
        match self.active_key_id {
            Some(s) => Some(s@),
            None => None,
        }
    }

    /// Ids are unique and the active id names a stored key pair.
    pub closed spec fn wf(&self) -> bool {
        &&& ids_unique(self.keys())
        &&& (self.active_id() matches Some(id) ==> holds_id(self.keys(), id))
    }

    /// The active key pair.
    pub open spec fn active_key(&self) -> Option<KeyPairModel> {
        match self.active_id() {
            Some(id) => key_with_id(self.keys(), id),
            None => None,
        }
    }

    /// An engine with no key pairs.
    pub fn new() -> (r: PqcEngine)
        ensures
            r.wf(),
            r.keys() == Seq::<KeyPairModel>::empty(),
            r.active_id() is None,
    {
        let r = PqcEngine { keypairs: Vec::new(), active_key_id: None };
        assert(r.keys() =~= Seq::<KeyPairModel>::empty());
        r
    }

    /// The position of the key pair with id `id`.
    fn find_index(&self, id: &String) -> (r: Option<usize>)
        ensures
            match r {
                Some(i) => i < self.keys().len() && self.keys()[i as int].id == id@,
                None => !holds_id(self.keys(), id@),
            },
    {
        let mut i: usize = 0;
        while i < self.keypairs.len()
            invariant
                i <= self.keypairs.len(),
                forall|j: int| 0 <= j < i ==> self.keys()[j].id != id@,
            decreases self.keypairs.len() - i,
        {
            if self.keypairs[i].id == *id {
                return Some(i);
            }
            i = i + 1;
        }
        None
    }

    /// Store `kp`, replacing a key pair with the same id.
    fn store(&mut self, kp: KeyPair)
        requires
            ids_unique(old(self).keys()),
        ensures
            final(self).keys() == insert_key(old(self).keys(), kp@),
            ids_unique(final(self).keys()),
            final(self).active_key_id == old(self).active_key_id,
    {
        let ghost keys = self.keys();
        let ghost m = kp@;
        match self.find_index(&kp.id) {
            Some(i) => {
                proof {
                    let p = position_of(keys, m.id);
                    assert(keys[i as int].id == m.id);
                    assert(p == i as int);
                }
                self.keypairs.set(i, kp);
                assert(self.keys() =~= keys.update(i as int, m));
            },
            None => {
                self.keypairs.push(kp);
                assert(self.keys() =~= keys.push(m));
            },
        }
    }

    /// Generate a key pair for `algorithm`, store it under a fresh random id and make it the
    /// active one. Stored under an id that is already held, it replaces that key pair.
    ///
    /// - `Kyber1024`: an ML-KEM-1024 key pair; `Hybrid`: an ML-KEM-768 key pair (the X25519
    ///   key is derived from it when used).
    /// - `ClassicalSign`: a random 64-byte HMAC-SHA512 key; the public part is its SHA-256 digest.
    /// - `MlDsa44`, `MlDsa65`, `MlDsa87`: an ML-DSA key pair of that parameter set.
    /// - `Aes256`: a random 32-byte ChaCha20Poly1305 key, stored as both parts.
    pub fn generate_keypair(&mut self, algorithm: EncryptionAlgo) -> (r: Result<KeyPair, PqcError>)
        requires
            old(self).wf(),
        ensures
            final(self).wf(),
            match r {
                Ok(kp) => {
                    &&& kp@.algorithm == algorithm
                    &&& key_material_ok(kp@)
                    &&& kem_keys_match(kp@)
                    &&& kp@.id.len() == 36
                    &&& kp@.created_at.len() > 0 && kp@.created_at.last() == 'Z' && kp@.created_at.contains('T')
                    &&& final(self).keys() == insert_key(old(self).keys(), kp@)
                    &&& !holds_id(old(self).keys(), kp@.id) ==> final(self).keys() == old(self).keys().push(kp@)
                    &&& final(self).active_id() == Some(kp@.id)
                },
                Err(_) => false,
            },
    {
        let id = new_uuid_v4();
        let (public_key, private_key): (Vec<u8>, Vec<u8>) = match algorithm {
            EncryptionAlgo::Kyber1024 => mlkem1024_keypair(),
            EncryptionAlgo::Hybrid => mlkem768_keypair(),
            EncryptionAlgo::ClassicalSign => {
                let key = random_bytes(64);
                let fingerprint = sha256_digest_bytes(key.as_slice());
                (fingerprint, key)
            },
            EncryptionAlgo::MlDsa44 => {
                let (sk, vk) = mldsa44_generate();
                (vk, sk)
            },
            EncryptionAlgo::MlDsa65 => {
                let (sk, vk) = mldsa65_generate();
                (vk, sk)
            },
            EncryptionAlgo::MlDsa87 => {
                let (sk, vk) = mldsa87_generate();
                (vk, sk)
            },
            EncryptionAlgo::Aes256 => {
                let key = chacha_generate_key();
                (key.clone(), key)
            },
        };
        let keypair = KeyPair { id: id.clone(), algorithm, public_key, private_key, created_at: now_rfc3339() };
        self.store(keypair.duplicate());
        self.active_key_id = Some(id);
        proof {
            let keys = self.keys();
            assert(holds_id(keys, keypair@.id)) by {
                if holds_id(old(self).keys(), keypair@.id) {
                    let p = position_of(old(self).keys(), keypair@.id);
                    assert(keys[p].id == keypair@.id);
                } else {
                    assert(keys[keys.len() - 1].id == keypair@.id);
                }
            }
        }
        Ok(keypair)
    }

    /// The public description of each stored key pair, in the order they were first stored.
    pub fn list_keys(&self) -> (r: Vec<KeyInfo>)
        ensures
            r@.len() == self.keys().len(),
            forall|i: int| 0 <= i < r@.len() ==> describes(#[trigger] r@[i], self.keys()[i]),
    {
        let mut out: Vec<KeyInfo> = Vec::new();
        for i in 0..self.keypairs.len()
            invariant
                out@.len() == i,
                forall|j: int| 0 <= j < i ==> describes(#[trigger] out@[j], self.keys()[j]),
        {
            let kp = &self.keypairs[i];
            let n: usize = if kp.public_key.len() < 16 { kp.public_key.len() } else { 16 };
            let head = first_bytes(kp.public_key.as_slice(), n);
            let preview = base64_encode(head.as_slice());
            let info = KeyInfo {
                id: kp.id.clone(),
                algorithm: kp.algorithm,
                algorithm_display: String::from_str(kp.algorithm.display_name()),
                nist_level: kp.algorithm.nist_level(),
                color: String::from_str(kp.algorithm.color()),
                public_key_preview: preview,
                public_key_bytes: kp.public_key.len(),
                has_private_key: kp.private_key.len() > 0,
                created_at: kp.created_at.clone(),
            };
            out.push(info);
        }
        out
    }

    /// The active key pair, if any.
    pub fn get_active_keypair(&self) -> (r: Option<&KeyPair>)
        requires
            self.wf(),
        ensures
            match r {
                Some(k) => self.active_key() == Some(k@),
                None => self.active_key() is None,
            },
    {
        match &self.active_key_id {
            Some(id) => match self.find_index(id) {
                Some(i) => {
                    proof {
                        let keys = self.keys();
                        let p = position_of(keys, id@);
                        assert(holds_id(keys, id@));
                    }
                    Some(&self.keypairs[i])
                },
                None => None,
            },
            None => None,
        }
    }

    /// The engine's status: whether a key pair is active, and its algorithm, NIST level, id
    /// and creation time.
    pub fn get_status(&self) -> (r: EncryptionStatus)
        requires
            self.wf(),
        ensures
            r.is_encrypted == self.active_key() is Some,
            match self.active_key() {
                Some(k) => {
                    &&& r.algorithm matches Some(a) && a@ == k.algorithm.display_name_spec()
                    &&& r.nist_level == Some(k.algorithm.nist_level_spec())
                    &&& r.encrypted_at matches Some(t) && t@ == k.created_at
                    &&& r.key_id matches Some(s) && s@ == k.id
                },
                None => r.algorithm is None && r.nist_level is None && r.encrypted_at is None
                    && r.key_id is None,
            },
    {
        proof {
            if let Some(id) = self.active_id() {
                assert(holds_id(self.keys(), id));
                let p = position_of(self.keys(), id);
                assert(self.keys()[p].id == id);
            }
        }
        let key_id = match &self.active_key_id {
            Some(s) => Some(s.clone()),
            None => None,
        };
        match self.get_active_keypair() {
            Some(kp) => EncryptionStatus {
                is_encrypted: true,
                algorithm: Some(String::from_str(kp.algorithm.display_name())),
                nist_level: Some(kp.algorithm.nist_level()),
                key_id,
                encrypted_at: Some(kp.created_at.clone()),
            },
            None => EncryptionStatus {
                is_encrypted: false,
                algorithm: None,
                nist_level: None,
                key_id,
                encrypted_at: None,
            },
        }
    }
}

} // verus!
