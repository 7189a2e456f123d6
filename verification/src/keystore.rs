//! Stored encryption keys: what the frontend is shown of them, which one a file is encrypted
//! with, and how a stored record turns back into a key pair.
use vstd::prelude::*;
use vstd::string::StringSliceAdditionalSpecFns;
use vstd::utf8::encode_utf8;

use crate::crypto::engine::PqcEngine;
use crate::crypto::pqc::{algorithm_from_str, algorithm_named, first_bytes, key_material_ok, EncryptionAlgo, KeyPair, KeyPairModel};
use crate::crypto::primitives::{base64_bytes, base64_decode, base64_encode, base64_text, now_rfc3339};
use crate::schema::EncryptionKey;
use crate::text::{chars_of, encode_utf8_concat, eq_lit};

verus! {

/// Status of one file after an encryption or decryption.
#[derive(Debug, Clone)]
pub struct EncryptionStatus {
    pub file_id: String,
    pub encrypted: bool,
    pub algorithm: Option<String>,
    pub updated_at: String,
}

/// Engine status as the frontend shows it.
#[derive(Debug, Clone)]
pub struct FrontendEncryptionStatus {
    pub is_encrypted: bool,
    pub algorithm: Option<String>,
    pub nist_level: Option<u8>,
    pub key_id: Option<String>,
    pub encrypted_at: Option<String>,
}

/// What the frontend is shown of a stored key; never the private key.
#[derive(Debug, Clone)]
pub struct FrontendKeyInfo {
    pub id: String,
    pub algorithm: String,
    pub algorithm_display: String,
    pub nist_level: u8,
    pub color: String,
    pub public_key_preview: String,
    pub has_private_key: bool,
    pub created_at: String,
}

/// The display name and NIST level that `algorithm_info` gives a name agree with the
/// algorithm the name selects: the same level, and a name that starts with the algorithm's
/// display name (the ML-DSA entries add the NIST level after it; the others are equal to it).
/// A name that selects no algorithm, and is none of the spellings `ml-dsa44`, `ml-dsa65` and
/// `ml-dsa87` that only `algorithm_info` knows, is described as unknown.
pub proof fn algorithm_info_agrees(s: Seq<char>)
    ensures
        algorithm_named(s) matches Some(a) ==> {
            &&& algorithm_info_spec(s).1 == a.nist_level_spec()
            &&& a.display_name_spec().is_prefix_of(algorithm_info_spec(s).0)
            &&& !(a is MlDsa44 || a is MlDsa65 || a is MlDsa87) ==> algorithm_info_spec(s).0 == a.display_name_spec()
        },
        algorithm_named(s) is None && s != "ml-dsa44"@ && s != "ml-dsa65"@ && s != "ml-dsa87"@
            ==> algorithm_info_spec(s) == ("Unknown"@, 0u8, "#6B7280"@),
{
    reveal_strlit("kyber1024");
    reveal_strlit("kyber768");
    reveal_strlit("kyber512");
    reveal_strlit("hybrid");
    reveal_strlit("ml-dsa-44");
    reveal_strlit("ml_dsa44");
    reveal_strlit("dilithium2");
    reveal_strlit("ml-dsa-65");
    reveal_strlit("ml_dsa65");
    reveal_strlit("dilithium3");
    reveal_strlit("ml-dsa-87");
    reveal_strlit("ml_dsa87");
    reveal_strlit("dilithium5");
    reveal_strlit("sphincsplus");
    reveal_strlit("sphincs+");
    reveal_strlit("classical_sign");
    reveal_strlit("hmac");
    reveal_strlit("aes256");
    reveal_strlit("chacha20");
    reveal_strlit("ml-dsa44");
    reveal_strlit("ml-dsa65");
    reveal_strlit("ml-dsa87");
    reveal_strlit("ML-DSA-44 — FIPS 204");
    reveal_strlit("ML-DSA-44 — FIPS 204 (NIST Level 2)");
    reveal_strlit("ML-DSA-65 — FIPS 204");
    reveal_strlit("ML-DSA-65 — FIPS 204 (NIST Level 3)");
    reveal_strlit("ML-DSA-87 — FIPS 204");
    reveal_strlit("ML-DSA-87 — FIPS 204 (NIST Level 5)");
    if s == "kyber1024"@ {
        assert(s.len() == 9 && s[0] == 'k' && s[1] == 'y' && s[2] == 'b' && s[3] == 'e' && s[4] == 'r' && s[5] == '1' && s[6] == '0' && s[7] == '2' && s[8] == '4');
        assert(algorithm_named(s) == Some(EncryptionAlgo::Kyber1024));
    }
    if s == "kyber768"@ {
        assert(s.len() == 8 && s[0] == 'k' && s[1] == 'y' && s[2] == 'b' && s[3] == 'e' && s[4] == 'r' && s[5] == '7' && s[6] == '6' && s[7] == '8');
        assert(algorithm_named(s) == Some(EncryptionAlgo::Hybrid));
    }
    if s == "kyber512"@ {
        assert(s.len() == 8 && s[0] == 'k' && s[1] == 'y' && s[2] == 'b' && s[3] == 'e' && s[4] == 'r' && s[5] == '5' && s[6] == '1' && s[7] == '2');
        assert(algorithm_named(s) == Some(EncryptionAlgo::Hybrid));
    }
    if s == "hybrid"@ {
        assert(s.len() == 6 && s[0] == 'h' && s[1] == 'y' && s[2] == 'b' && s[3] == 'r' && s[4] == 'i' && s[5] == 'd');
        assert(algorithm_named(s) == Some(EncryptionAlgo::Hybrid));
    }
    if s == "ml-dsa-44"@ {
        assert(s.len() == 9 && s[0] == 'm' && s[1] == 'l' && s[2] == '-' && s[3] == 'd' && s[4] == 's' && s[5] == 'a' && s[6] == '-' && s[7] == '4' && s[8] == '4');
        assert(algorithm_named(s) == Some(EncryptionAlgo::MlDsa44));
    }
    if s == "ml_dsa44"@ {
        assert(s.len() == 8 && s[0] == 'm' && s[1] == 'l' && s[2] == '_' && s[3] == 'd' && s[4] == 's' && s[5] == 'a' && s[6] == '4' && s[7] == '4');
        assert(algorithm_named(s) == Some(EncryptionAlgo::MlDsa44));
    }
    if s == "dilithium2"@ {
        assert(s.len() == 10 && s[0] == 'd' && s[1] == 'i' && s[2] == 'l' && s[3] == 'i' && s[4] == 't' && s[5] == 'h' && s[6] == 'i' && s[7] == 'u' && s[8] == 'm' && s[9] == '2');
        assert(algorithm_named(s) == Some(EncryptionAlgo::MlDsa44));
    }
    if s == "ml-dsa-65"@ {
        assert(s.len() == 9 && s[0] == 'm' && s[1] == 'l' && s[2] == '-' && s[3] == 'd' && s[4] == 's' && s[5] == 'a' && s[6] == '-' && s[7] == '6' && s[8] == '5');
        assert(algorithm_named(s) == Some(EncryptionAlgo::MlDsa65));
    }
    if s == "ml_dsa65"@ {
        assert(s.len() == 8 && s[0] == 'm' && s[1] == 'l' && s[2] == '_' && s[3] == 'd' && s[4] == 's' && s[5] == 'a' && s[6] == '6' && s[7] == '5');
        assert(algorithm_named(s) == Some(EncryptionAlgo::MlDsa65));
    }
    if s == "dilithium3"@ {
        assert(s.len() == 10 && s[0] == 'd' && s[1] == 'i' && s[2] == 'l' && s[3] == 'i' && s[4] == 't' && s[5] == 'h' && s[6] == 'i' && s[7] == 'u' && s[8] == 'm' && s[9] == '3');
        assert(algorithm_named(s) == Some(EncryptionAlgo::MlDsa65));
    }
    if s == "ml-dsa-87"@ {
        assert(s.len() == 9 && s[0] == 'm' && s[1] == 'l' && s[2] == '-' && s[3] == 'd' && s[4] == 's' && s[5] == 'a' && s[6] == '-' && s[7] == '8' && s[8] == '7');
        assert(algorithm_named(s) == Some(EncryptionAlgo::MlDsa87));
    }
    if s == "ml_dsa87"@ {
        assert(s.len() == 8 && s[0] == 'm' && s[1] == 'l' && s[2] == '_' && s[3] == 'd' && s[4] == 's' && s[5] == 'a' && s[6] == '8' && s[7] == '7');
        assert(algorithm_named(s) == Some(EncryptionAlgo::MlDsa87));
    }
    if s == "dilithium5"@ {
        assert(s.len() == 10 && s[0] == 'd' && s[1] == 'i' && s[2] == 'l' && s[3] == 'i' && s[4] == 't' && s[5] == 'h' && s[6] == 'i' && s[7] == 'u' && s[8] == 'm' && s[9] == '5');
        assert(algorithm_named(s) == Some(EncryptionAlgo::MlDsa87));
    }
    if s == "sphincsplus"@ {
        assert(s.len() == 11 && s[0] == 's' && s[1] == 'p' && s[2] == 'h' && s[3] == 'i' && s[4] == 'n' && s[5] == 'c' && s[6] == 's' && s[7] == 'p' && s[8] == 'l' && s[9] == 'u' && s[10] == 's');
        assert(algorithm_named(s) == Some(EncryptionAlgo::ClassicalSign));
    }
    if s == "sphincs+"@ {
        assert(s.len() == 8 && s[0] == 's' && s[1] == 'p' && s[2] == 'h' && s[3] == 'i' && s[4] == 'n' && s[5] == 'c' && s[6] == 's' && s[7] == '+');
        assert(algorithm_named(s) == Some(EncryptionAlgo::ClassicalSign));
    }
    if s == "classical_sign"@ {
        assert(s.len() == 14 && s[0] == 'c' && s[1] == 'l' && s[2] == 'a' && s[3] == 's' && s[4] == 's' && s[5] == 'i' && s[6] == 'c' && s[7] == 'a' && s[8] == 'l' && s[9] == '_' && s[10] == 's' && s[11] == 'i' && s[12] == 'g' && s[13] == 'n');
        assert(algorithm_named(s) == Some(EncryptionAlgo::ClassicalSign));
    }
    if s == "hmac"@ {
        assert(s.len() == 4 && s[0] == 'h' && s[1] == 'm' && s[2] == 'a' && s[3] == 'c');
        assert(algorithm_named(s) == Some(EncryptionAlgo::ClassicalSign));
    }
    if s == "aes256"@ {
        assert(s.len() == 6 && s[0] == 'a' && s[1] == 'e' && s[2] == 's' && s[3] == '2' && s[4] == '5' && s[5] == '6');
        assert(algorithm_named(s) == Some(EncryptionAlgo::Aes256));
    }
    if s == "chacha20"@ {
        assert(s.len() == 8 && s[0] == 'c' && s[1] == 'h' && s[2] == 'a' && s[3] == 'c' && s[4] == 'h' && s[5] == 'a' && s[6] == '2' && s[7] == '0');
        assert(algorithm_named(s) == Some(EncryptionAlgo::Aes256));
    }
}

/// Display name, NIST level and color of a stored algorithm name.
pub open spec fn algorithm_info_spec(a: Seq<char>) -> (Seq<char>, u8, Seq<char>) {
    if a == "kyber1024"@ {
        ("ML-KEM-1024 — FIPS 203"@, 5u8, "#00FF41"@)
    } else if a == "kyber768"@ || a == "hybrid"@ || a == "kyber512"@ {
        ("Hybrid ML-KEM-768 + X25519"@, 5u8, "#FFB800"@)
    } else if a == "ml_dsa44"@ || a == "ml-dsa44"@ || a == "ml-dsa-44"@ || a == "dilithium2"@ {
        ("ML-DSA-44 — FIPS 204 (NIST Level 2)"@, 2u8, "#00D4FF"@)
    } else if a == "ml_dsa65"@ || a == "ml-dsa65"@ || a == "ml-dsa-65"@ || a == "dilithium3"@ {
        ("ML-DSA-65 — FIPS 204 (NIST Level 3)"@, 3u8, "#A855F7"@)
    } else if a == "ml_dsa87"@ || a == "ml-dsa87"@ || a == "ml-dsa-87"@ || a == "dilithium5"@ {
        ("ML-DSA-87 — FIPS 204 (NIST Level 5)"@, 5u8, "#FF2D6F"@)
    } else if a == "classical_sign"@ || a == "hmac"@ || a == "sphincsplus"@ || a == "sphincs+"@ {
        ("HMAC-SHA512 (Classical — NOT post-quantum)"@, 0u8, "#6B7280"@)
    } else if a == "aes256"@ || a == "chacha20"@ {
        ("ChaCha20Poly1305 (Classical)"@, 0u8, "#FF6B2B"@)
    } else {
        ("Unknown"@, 0u8, "#6B7280"@)
    }
}

/// Display name, NIST level and color of a stored algorithm name.
pub fn algorithm_info(algo: &str) -> (r: (&'static str, u8, &'static str))
    ensures
        (r.0@, r.1, r.2@) == algorithm_info_spec(algo@),
{
    let c = chars_of(algo);
    if eq_lit(&c, "kyber1024") {
        ("ML-KEM-1024 — FIPS 203", 5, "#00FF41")
    } else if eq_lit(&c, "kyber768") || eq_lit(&c, "hybrid") || eq_lit(&c, "kyber512") {
        ("Hybrid ML-KEM-768 + X25519", 5, "#FFB800")
    } else if eq_lit(&c, "ml_dsa44") || eq_lit(&c, "ml-dsa44") || eq_lit(&c, "ml-dsa-44") || eq_lit(&c, "dilithium2") {
        ("ML-DSA-44 — FIPS 204 (NIST Level 2)", 2, "#00D4FF")
    } else if eq_lit(&c, "ml_dsa65") || eq_lit(&c, "ml-dsa65") || eq_lit(&c, "ml-dsa-65") || eq_lit(&c, "dilithium3") {
        ("ML-DSA-65 — FIPS 204 (NIST Level 3)", 3, "#A855F7")
    } else if eq_lit(&c, "ml_dsa87") || eq_lit(&c, "ml-dsa87") || eq_lit(&c, "ml-dsa-87") || eq_lit(&c, "dilithium5") {
        ("ML-DSA-87 — FIPS 204 (NIST Level 5)", 5, "#FF2D6F")
    } else if eq_lit(&c, "classical_sign") || eq_lit(&c, "hmac") || eq_lit(&c, "sphincsplus") || eq_lit(&c, "sphincs+") {
        ("HMAC-SHA512 (Classical — NOT post-quantum)", 0, "#6B7280")
    } else if eq_lit(&c, "aes256") || eq_lit(&c, "chacha20") {
        ("ChaCha20Poly1305 (Classical)", 0, "#FF6B2B")
    } else {
        ("Unknown", 0, "#6B7280")
    }
}

/// The algorithm names a file can be encrypted with.
pub open spec fn encryptable(a: Seq<char>) -> bool {
    a == "kyber512"@ || a == "kyber768"@ || a == "kyber1024"@ || a == "hybrid"@ || a == "ml_dsa44"@
        || a == "ml_dsa65"@ || a == "ml_dsa87"@ || a == "dilithium2"@ || a == "dilithium3"@
        || a == "dilithium5"@ || a == "sphincsplus"@ || a == "classical_sign"@ || a == "aes256"@
}

/// The refusal of an algorithm name that files cannot be encrypted with.
pub open spec fn unsupported_message(a: Seq<char>) -> Seq<char> {
    "Unsupported algorithm: "@ + a
        + ". Supported: kyber512, kyber768, kyber1024, hybrid, ml_dsa44, ml_dsa65, ml_dsa87, dilithium2, dilithium3, dilithium5, sphincsplus, classical_sign, aes256"@
}

/// Accept an algorithm name that files can be encrypted with, or refuse it.
pub fn check_encryptable(algorithm: &str) -> (r: Result<(), String>)
    ensures
        r is Ok <==> encryptable(algorithm@),
        r matches Err(m) ==> m@ == unsupported_message(algorithm@),
{
    let c = chars_of(algorithm);
    if eq_lit(&c, "kyber512") || eq_lit(&c, "kyber768") || eq_lit(&c, "kyber1024") || eq_lit(&c, "hybrid")
        || eq_lit(&c, "ml_dsa44") || eq_lit(&c, "ml_dsa65") || eq_lit(&c, "ml_dsa87") || eq_lit(&c, "dilithium2")
        || eq_lit(&c, "dilithium3") || eq_lit(&c, "dilithium5") || eq_lit(&c, "sphincsplus")
        || eq_lit(&c, "classical_sign") || eq_lit(&c, "aes256") {
        Ok(())
    } else {
        let mut m = String::from_str("Unsupported algorithm: ");
        m.append(algorithm);
        m.append(
            ". Supported: kyber512, kyber768, kyber1024, hybrid, ml_dsa44, ml_dsa65, ml_dsa87, dilithium2, dilithium3, dilithium5, sphincsplus, classical_sign, aes256",
        );
        Err(m)
    }
}

/// The label recorded for a file encrypted under an algorithm name when the engine itself
/// did not report one.
pub open spec fn fallback_label(a: Seq<char>) -> Seq<char> {
    algorithm_info_spec(a).0 + "+ChaCha20Poly1305"@
}

/// The label recorded for a file encrypted under an algorithm name when the engine itself
/// did not report one.
pub fn encryption_label(algorithm: &str) -> (r: String)
    ensures
        r@ == fallback_label(algorithm@),
{
    let mut s = String::from_str(algorithm_info(algorithm).0);
    s.append("+ChaCha20Poly1305");
    s
}

/// Whether the byte string `a` comes strictly before `b` in lexicographic order.
pub open spec fn lex_less(a: Seq<u8>, b: Seq<u8>) -> bool
    decreases a.len(),
{
    if b.len() == 0 {
        false
    } else if a.len() == 0 {
        true
    } else if a[0] != b[0] {
        a[0] < b[0]
    } else {
        lex_less(a.drop_first(), b.drop_first())
    }
}

/// Whether the string `a` comes strictly before `b` (`<` on strings: their UTF-8 bytes in
/// lexicographic order).
pub open spec fn str_less(a: Seq<char>, b: Seq<char>) -> bool {
    lex_less(encode_utf8(a), encode_utf8(b))
}

proof fn lex_less_skip(a: Seq<u8>, b: Seq<u8>, i: int)
    requires
        0 <= i,
        i < a.len(),
        i < b.len(),
        a[i] == b[i],
    ensures
        lex_less(a.skip(i), b.skip(i)) == lex_less(a.skip(i + 1), b.skip(i + 1)),
{
    assert(a.skip(i).drop_first() =~= a.skip(i + 1));
    assert(b.skip(i).drop_first() =~= b.skip(i + 1));
}

/// Whether `a` comes strictly after `b` (string `>`).
pub fn str_greater(a: &str, b: &str) -> (r: bool)
    ensures
        r == str_less(b@, a@),
{
    let x = b.as_bytes();
    let y = a.as_bytes();
    let mut i: usize = 0;
    assert(x@.skip(0) =~= x@);
    assert(y@.skip(0) =~= y@);
    while i < x.len() && i < y.len()
        invariant
            x@ == encode_utf8(b@),
            y@ == encode_utf8(a@),
            i <= x@.len(),
            i <= y@.len(),
            lex_less(x@, y@) == lex_less(x@.skip(i as int), y@.skip(i as int)),
        decreases x.len() - i,
    {
        if x[i] != y[i] {
            proof {
                let xs = x@.skip(i as int);
                let ys = y@.skip(i as int);
                assert(xs[0] == x@[i as int]);
                assert(ys[0] == y@[i as int]);
                assert(xs.len() > 0 && ys.len() > 0);
                assert(lex_less(xs, ys) == (xs[0] < ys[0]));
            }
            return x[i] < y[i];
        }
        proof {
            lex_less_skip(x@, y@, i as int);
        }
        i = i + 1;
    }
    i < y.len()
}

/// Whether a stored key is of the algorithm asked for (any key when none is asked for).
pub open spec fn of_algorithm(k: EncryptionKey, algorithm: Option<Seq<char>>) -> bool {
    match algorithm {
        Some(a) => k.algorithm@ == a,
        None => true,
    }
}

/// The position of the newest matching key: keys are taken in order, and a later key
/// replaces the chosen one only when created strictly later.
pub open spec fn latest_among(keys: Seq<EncryptionKey>, algorithm: Option<Seq<char>>) -> Option<int>
    decreases keys.len(),
{
    if keys.len() == 0 {
        None
    } else {
        let prev = latest_among(keys.drop_last(), algorithm);
        let k = keys.last();
        if of_algorithm(k, algorithm) && match prev {
            None => true,
            Some(p) => str_less(keys[p].created_at@, k.created_at@),
        } {
            Some(keys.len() - 1)
        } else {
            prev
        }
    }
}

proof fn latest_among_bounds(keys: Seq<EncryptionKey>, algorithm: Option<Seq<char>>)
    ensures
        latest_among(keys, algorithm) matches Some(p) ==> 0 <= p < keys.len() && of_algorithm(
            keys[p],
            algorithm,
        ),
    decreases keys.len(),
{
    if keys.len() > 0 {
        latest_among_bounds(keys.drop_last(), algorithm);
    }
}

/// The position of the most recently created key of the given algorithm (of any algorithm
/// when `algorithm` is `None`); creation times compare as strings.
pub fn latest_key(keys: &[EncryptionKey], algorithm: Option<&str>) -> (r: Option<usize>)
    ensures
        match r {
            Some(i) => latest_among(keys@, opt_view(algorithm)) == Some(i as int),
            None => latest_among(keys@, opt_view(algorithm)) is None,
        },
{
    let mut best: Option<usize> = None;
    for i in 0..keys.len()
        invariant
            match best {
                Some(b) => latest_among(keys@.take(i as int), opt_view(algorithm)) == Some(b as int),
                None => latest_among(keys@.take(i as int), opt_view(algorithm)) is None,
            },
    {
        proof {
            latest_among_bounds(keys@.take(i as int), opt_view(algorithm));
            assert(keys@.take(i + 1).drop_last() =~= keys@.take(i as int));
        }
        let k = &keys[i];
        let matches_algo = match algorithm {
            Some(a) => {
                let ka = chars_of(k.algorithm.as_str());
                let wa = chars_of(a);
                vec_eq(&ka, &wa)
            },
            None => true,
        };
        if matches_algo {
            match best {
                None => {
                    best = Some(i);
                },
                Some(b) => {
                    if str_greater(k.created_at.as_str(), keys[b].created_at.as_str()) {
                        best = Some(i);
                    }
                },
            }
        }
    }
    assert(keys@.take(keys@.len() as int) =~= keys@);
    best
}

/// The view of an optional string.
pub open spec fn opt_view(s: Option<&str>) -> Option<Seq<char>> {
    match s {
        Some(t) => Some(t@),
        None => None,
    }
}

fn vec_eq(a: &Vec<char>, b: &Vec<char>) -> (r: bool)
    ensures
        r == (a@ == b@),
{
    if a.len() != b.len() {
        return false;
    }
    let mut i: usize = 0;
    while i < a.len()
        invariant
            a@.len() == b@.len(),
            i <= a@.len(),
            forall|j: int| 0 <= j < i ==> a@[j] == b@[j],
        decreases a.len() - i,
    {
        if a[i] != b[i] {
            return false;
        }
        i = i + 1;
    }
    assert(a@ =~= b@);
    true
}

/// The key pair a stored record holds: its algorithm name must be known and both keys must
/// be valid Base64.
pub open spec fn stored_keypair(stored: EncryptionKey) -> Option<KeyPairModel> {
    match (algorithm_named(stored.algorithm@), base64_bytes(stored.public_key@), base64_bytes(stored.private_key@)) {
        (Some(a), Some(pk), Some(sk)) => Some(
            KeyPairModel { id: stored.id@, algorithm: a, public_key: pk, private_key: sk, created_at: stored.created_at@ },
        ),
        _ => None,
    }
}

/// Turn a stored record back into a key pair, or say why it cannot be.
pub fn reconstruct_keypair(stored: &EncryptionKey) -> (r: Result<KeyPair, String>)
    ensures
        r is Ok <==> stored_keypair(*stored) is Some,
        r matches Ok(kp) ==> stored_keypair(*stored) == Some(kp@),
        r matches Err(m) ==> if algorithm_named(stored.algorithm@) is None {
            m@ == "Unknown algorithm: "@ + stored.algorithm@
        } else if base64_bytes(stored.public_key@) is None {
            "Failed to decode public key: "@.is_prefix_of(m@)
        } else {
            "Failed to decode private key: "@.is_prefix_of(m@)
        },
{
    let algorithm = match algorithm_from_str(stored.algorithm.as_str()) {
        Some(a) => a,
        None => {
            let mut m = String::from_str("Unknown algorithm: ");
            m.append(stored.algorithm.as_str());
            return Err(m);
        },
    };
    let public_key = match base64_decode(stored.public_key.as_str()) {
        Ok(b) => b,
        Err(e) => {
            let mut m = String::from_str("Failed to decode public key: ");
            m.append(e.as_str());
            return Err(m);
        },
    };
    let private_key = match base64_decode(stored.private_key.as_str()) {
        Ok(b) => b,
        Err(e) => {
            let mut m = String::from_str("Failed to decode private key: ");
            m.append(e.as_str());
            return Err(m);
        },
    };
    Ok(KeyPair { id: stored.id.clone(), algorithm, public_key, private_key, created_at: stored.created_at.clone() })
}

/// What the frontend is shown of a stored key. A public key text longer than 16 bytes must
/// not have a character across its 16th byte (Base64 text is ASCII, so only other text can).
pub fn key_info(stored: &EncryptionKey) -> (r: FrontendKeyInfo)
    requires
        encode_utf8(stored.public_key@).len() <= usize::MAX,
        encode_utf8(stored.public_key@).len() > 16 ==> vstd::utf8::is_char_boundary(
            encode_utf8(stored.public_key@),
            16,
        ),
    ensures
        r.id@ == stored.id@,
        r.algorithm@ == stored.algorithm@,
        (r.algorithm_display@, r.nist_level, r.color@) == algorithm_info_spec(stored.algorithm@),
        match base64_bytes(stored.public_key@) {
            Some(b) => r.public_key_preview@ == base64_text(
                b.take(if b.len() < 16 { b.len() as int } else { 16 }),
            ) + "..."@,
            None => if encode_utf8(stored.public_key@).len() > 16 {
                encode_utf8(r.public_key_preview@) == encode_utf8(stored.public_key@).take(16)
                    + encode_utf8("..."@)
            } else {
                r.public_key_preview@ == stored.public_key@
            },
        },
        r.has_private_key == (stored.private_key@.len() > 0),
        r.created_at@ == stored.created_at@,
{
    let (display, nist_level, color) = algorithm_info(stored.algorithm.as_str());
    let preview = match base64_decode(stored.public_key.as_str()) {
        Ok(bytes) => {
            let n: usize = if bytes.len() < 16 { bytes.len() } else { 16 };
            let head = first_bytes(bytes.as_slice(), n);
            let mut p = base64_encode(head.as_slice());
            p.append("...");
            assert(p@ == base64_text(bytes@.take(n as int)) + "..."@);
            p
        },
        Err(_) => {
            let text = stored.public_key.as_str();
            if text.len() > 16 {
                let (head, _) = text.split_at(16);
                let mut p = String::from_str(head);
                p.append("...");
                proof {
                    encode_utf8_concat(head@, "..."@);
                    assert(p@ == head@ + "..."@);
                    assert(encode_utf8(head@) == encode_utf8(text@).take(16));
                    assert(encode_utf8(p@) == encode_utf8(text@).take(16) + encode_utf8("..."@));
                }
                p
            } else {
                stored.public_key.clone()
            }
        },
    };
    let r = FrontendKeyInfo {
        id: stored.id.clone(),
        algorithm: stored.algorithm.clone(),
        algorithm_display: String::from_str(display),
        nist_level,
        color: String::from_str(color),
        public_key_preview: preview,
        has_private_key: !stored.private_key.as_str().is_empty(),
        created_at: stored.created_at.clone(),
    };
    r
}

/// The engine status reported for the newest stored key (if any) and whether any file is
/// encrypted: encrypted when some file is, or when the newest key's algorithm is known.
pub fn encryption_status(latest: Option<&EncryptionKey>, any_encrypted: bool) -> (r: FrontendEncryptionStatus)
    ensures
        match latest {
            Some(k) => {
                &&& r.is_encrypted == (any_encrypted || algorithm_named(k.algorithm@) is Some)
                &&& r.algorithm matches Some(a) && a@ == algorithm_info_spec(k.algorithm@).0
                &&& r.nist_level == Some(algorithm_info_spec(k.algorithm@).1)
                &&& r.key_id matches Some(id) && id@ == k.id@
                &&& r.encrypted_at matches Some(t) && t@ == k.created_at@
            },
            None => !r.is_encrypted && r.algorithm is None && r.nist_level is None && r.key_id is None
                && r.encrypted_at is None,
        },
{
    match latest {
        Some(key) => {
            let known = algorithm_from_str(key.algorithm.as_str()).is_some();
            let (display, nist_level, _color) = algorithm_info(key.algorithm.as_str());
            FrontendEncryptionStatus {
                is_encrypted: any_encrypted || known,
                algorithm: Some(String::from_str(display)),
                nist_level: Some(nist_level),
                key_id: Some(key.id.clone()),
                encrypted_at: Some(key.created_at.clone()),
            }
        },
        None => FrontendEncryptionStatus {
            is_encrypted: false,
            algorithm: None,
            nist_level: None,
            key_id: None,
            encrypted_at: None,
        },
    }
}

/// The refusal of an algorithm name that no key pair can be generated for.
pub open spec fn unknown_algorithm_message(a: Seq<char>) -> Seq<char> {
    "Unsupported algorithm: "@ + a
        + ". Supported: kyber1024, hybrid, ml_dsa44, ml_dsa65, ml_dsa87, classical_sign, aes256"@
}

fn unknown_algorithm(algorithm: &str) -> (m: String)
    ensures
        m@ == unknown_algorithm_message(algorithm@),
{
    let mut m = String::from_str("Unsupported algorithm: ");
    m.append(algorithm);
    m.append(". Supported: kyber1024, hybrid, ml_dsa44, ml_dsa65, ml_dsa87, classical_sign, aes256");
    m
}

/// Generate a key pair for an algorithm name and the record to store for it: key material
/// in Base64 and a label naming the algorithm. The record turns back into valid key material
/// of that algorithm.
pub fn new_key_record(algorithm: &str) -> (r: Result<EncryptionKey, String>)
    ensures
        r is Ok <==> algorithm_named(algorithm@) is Some,
        r matches Err(m) ==> m@ == unknown_algorithm_message(algorithm@),
        r matches Ok(k) ==> {
            &&& k.algorithm@ == algorithm@
            &&& k.id@.len() == 36
            &&& k.label matches Some(l) && l@ == algorithm_info_spec(algorithm@).0 + " keypair"@
            &&& stored_keypair(k) matches Some(m) && key_material_ok(m) && Some(m.algorithm) == algorithm_named(
                algorithm@,
            )
        },
{
    let algo = match algorithm_from_str(algorithm) {
        Some(a) => a,
        None => return Err(unknown_algorithm(algorithm)),
    };
    let mut engine = PqcEngine::new();
    let keypair = match engine.generate_keypair(algo) {
        Ok(kp) => kp,
        Err(_) => return Err(unknown_algorithm(algorithm)),
    };
    let now = now_rfc3339();
    let public_key = base64_encode(keypair.public_key.as_slice());
    let private_key = base64_encode(keypair.private_key.as_slice());
    let mut label = String::from_str(algorithm_info(algorithm).0);
    label.append(" keypair");
    let key = EncryptionKey {
        id: keypair.id,
        algorithm: String::from_str(algorithm),
        public_key,
        private_key,
        label: Some(label),
        created_at: now,
    };
    Ok(key)
}

} // verus!
