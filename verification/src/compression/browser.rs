//! The compression entry points offered to the browser build: LZ4 and Brotli on raw
//! bytes, with the failures reported as text.
use std::io::Write;
use vstd::prelude::*;

use crate::text::prefixed;
use crate::compression::layers::{
    brotli_compress_stream, brotli_stream, le32_bytes, lz4_block, lz4_compress_prepend_size, lz4_decompress_size_prepended,
    lz4_unblock, BROTLI_BUFFER_SIZE, BROTLI_LGWIN,
};

verus! {

/// What a `brotli::DecompressorWriter` that is written all of the given bytes and then
/// finished with `into_inner` hands back (`None` when the write fails or the stream is
/// not complete).
pub uninterp spec fn brotli_finished_stream(data: Seq<u8>) -> Option<Seq<u8>>;

/// The text of an LZ4 decoding error (its `Display`). What the text says is not stated.
#[verifier::external_body]
fn lz4_error_text(e: &lz4_flex::block::DecompressError) -> (r: String) {
    format!("{}", e)
}

/// Writes the bytes through a `brotli::DecompressorWriter` with a 4096-byte buffer and
/// finishes it with `into_inner`: `Err` with the write's error, `Ok(Err(()))` when the
/// stream did not end, or the decoded bytes.
#[verifier::external_body]
fn brotli_decompress_finished(data: &[u8]) -> (r: Result<Result<Vec<u8>, ()>, std::io::Error>)
    ensures
        r matches Ok(Ok(v)) ==> brotli_finished_stream(data@) == Some(v@),
        (r matches Ok(Ok(_))) <==> brotli_finished_stream(data@) is Some,
{
    let mut decoder = brotli::DecompressorWriter::new(Vec::new(), BROTLI_BUFFER_SIZE);
    match decoder.write_all(data) {
        Ok(()) => match decoder.into_inner() {
            Ok(v) => Ok(Ok(v)),
            Err(_) => Ok(Err(())),
        },
        Err(e) => Err(e),
    }
}

/// The text of an I/O error (its `Display`). What the text says is not stated.
#[verifier::external_body]
fn io_error_text(e: &std::io::Error) -> (r: String) {
    format!("{}", e)
}

/// LZ4 block compression with the input length prepended.
pub fn compress_lz4(data: &[u8]) -> (r: Vec<u8>)
    ensures
        r@ == lz4_block(data@),
        data@.len() <= u32::MAX ==> lz4_unblock(r@) == Some(data@),
        data@.len() <= u32::MAX ==> r@.len() >= 4 && r@.take(4) == le32_bytes(data@.len()),
{
    lz4_compress_prepend_size(data)
}

/// Decodes size-prepended LZ4 data; a malformed input is reported as
/// `LZ4 decompression failed: ` and the decoder's message.
pub fn decompress_lz4(data: &[u8]) -> (r: Result<Vec<u8>, String>)
    ensures
        r is Ok <==> lz4_unblock(data@) is Some,
        r matches Ok(v) ==> lz4_unblock(data@) == Some(v@),
        r matches Err(m) ==> m@.len() >= 26 && m@.subrange(0, 26) == "LZ4 decompression failed: "@,
{
    match lz4_decompress_size_prepended(data) {
        Ok(v) => Ok(v),
        Err(e) => {
            let detail = lz4_error_text(&e);
            let m = prefixed("LZ4 decompression failed: ", detail.as_str());
            proof {
                reveal_strlit("LZ4 decompression failed: ");
                assert(m@.subrange(0, 26) =~= "LZ4 decompression failed: "@);
            }
            Err(m)
        },
    }
}

/// Brotli compression at the given quality, window 22, through a 4096-byte buffer; a
/// failed write is reported as `Brotli write failed`.
pub fn compress_brotli(data: &[u8], quality: u32) -> (r: Result<Vec<u8>, String>)
    ensures
        r is Ok,
        r matches Ok(v) ==> v@ == brotli_stream(data@, BROTLI_BUFFER_SIZE as int, quality as int, BROTLI_LGWIN as int),
        r matches Err(m) ==> m@ == "Brotli write failed"@,
{
    match brotli_compress_stream(data, BROTLI_BUFFER_SIZE, quality, BROTLI_LGWIN) {
        Ok(v) => Ok(v),
        Err(_) => Err(String::from_str("Brotli write failed")),
    }
}

/// Decodes a complete Brotli stream; a write error is reported as
/// `Brotli decompression failed: ` and its message, a stream that does not end as
/// `Brotli finalize failed`.
pub fn decompress_brotli(data: &[u8]) -> (r: Result<Vec<u8>, String>)
    ensures
        r is Ok <==> brotli_finished_stream(data@) is Some,
        r matches Ok(v) ==> brotli_finished_stream(data@) == Some(v@),
        r matches Err(m) ==> m@ == "Brotli finalize failed"@ || (m@.len() >= 29 && m@.subrange(0, 29)
            == "Brotli decompression failed: "@),
{
    match brotli_decompress_finished(data) {
        Ok(Ok(v)) => Ok(v),
        Ok(Err(())) => Err(String::from_str("Brotli finalize failed")),
        Err(e) => {
            let detail = io_error_text(&e);
            let m = prefixed("Brotli decompression failed: ", detail.as_str());
            proof {
                reveal_strlit("Brotli decompression failed: ");
                assert(m@.subrange(0, 29) =~= "Brotli decompression failed: "@);
            }
            Err(m)
        },
    }
}

} // verus!
