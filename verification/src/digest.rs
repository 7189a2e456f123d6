//! BLAKE3 content hashing.
use vstd::prelude::*;

verus! {

/// The lowercase hexadecimal text of `blake3::hash` of the given bytes.
pub uninterp spec fn blake3_hex(data: Seq<u8>) -> Seq<char>;

/// Calls `blake3::hash(data).to_hex()`: the 32-byte BLAKE3 digest of `data` as 64 lowercase
/// hexadecimal characters (the crate documents the fixed size of `to_hex`).
#[verifier::external_body]
pub(crate) fn blake3_hex_digest(data: &[u8]) -> (r: String)
    ensures
        r@ == blake3_hex(data@),
        r@.len() == 64,
{
    blake3::hash(data).to_hex().to_string()
}

} // verus!
