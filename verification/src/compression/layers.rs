//! The three compression layers and the outside codecs behind them.
use std::io::Write;
use vstd::prelude::*;

use crate::compression::types::{CompressionError, LayerDetail};
use crate::text::{decimal, push_decimal, push_signed_decimal, signed_decimal};

verus! {

#[verifier::external_type_specification]
#[verifier::external_body]
pub struct ExLz4DecompressError(lz4_flex::block::DecompressError);

#[verifier::external_type_specification]
#[verifier::external_body]
pub struct ExIoError(std::io::Error);

/// What `lz4_flex::compress_prepend_size` returns for the given bytes.
pub uninterp spec fn lz4_block(data: Seq<u8>) -> Seq<u8>;

/// The four little-endian bytes of a length below 2^32.
pub open spec fn le32_bytes(n: nat) -> Seq<u8> {
    seq![(n % 256) as u8, ((n / 256) % 256) as u8, ((n / 65536) % 256) as u8, ((n / 16777216) % 256) as u8]
}

/// What `lz4_flex::decompress_size_prepended` returns for the given bytes (`None` for its error).
pub uninterp spec fn lz4_unblock(data: Seq<u8>) -> Option<Seq<u8>>;

/// What `zstd::encode_all` returns for the given bytes and level, when it succeeds.
pub uninterp spec fn zstd_frame(data: Seq<u8>, level: int) -> Seq<u8>;

/// What `zstd::decode_all` returns for the given bytes (`None` for its error).
pub uninterp spec fn zstd_unframe(data: Seq<u8>) -> Option<Seq<u8>>;

/// What a `brotli::CompressorWriter` with the given buffer size, quality and window writes
/// for the given bytes, when it succeeds.
pub uninterp spec fn brotli_stream(data: Seq<u8>, buffer_size: int, quality: int, lgwin: int) -> Seq<u8>;

/// What a `brotli::DecompressorWriter` writes for the given bytes (`None` for its error).
pub uninterp spec fn brotli_unstream(data: Seq<u8>) -> Option<Seq<u8>>;

/// Calls `lz4_flex::compress_prepend_size`: the LZ4 block encoding of `data` behind its
/// length as a little-endian `u32`. The crate documents that `decompress_size_prepended`
/// gives the input back; that holds while the length fits the `u32` prefix.
#[verifier::external_body]
pub(crate) fn lz4_compress_prepend_size(data: &[u8]) -> (r: Vec<u8>)
    ensures
        r@ == lz4_block(data@),
        data@.len() <= u32::MAX ==> lz4_unblock(r@) == Some(data@),
        data@.len() <= u32::MAX ==> r@.len() >= 4 && r@.take(4) == le32_bytes(data@.len()),
{
    lz4_flex::compress_prepend_size(data)
}

/// Calls `lz4_flex::decompress_size_prepended`, which reads the length prefix and decodes
/// the LZ4 block behind it; with the crate's default `safe-decode` it reports malformed
/// input as an error instead of panicking.
#[verifier::external_body]
pub(crate) fn lz4_decompress_size_prepended(data: &[u8]) -> (r: Result<Vec<u8>, lz4_flex::block::DecompressError>)
    ensures
        r is Ok <==> lz4_unblock(data@) is Some,
        r matches Ok(v) ==> lz4_unblock(data@) == Some(v@),
{
    lz4_flex::decompress_size_prepended(data)
}

/// Calls `zstd::encode_all` on the bytes at the given level. Reading a slice and writing a
/// vector cannot fail, and zstd clamps the level into its range, so the call succeeds; the
/// result is the zstd frame of the input, and `zstd::decode_all` gives the input back
/// from it.
#[verifier::external_body]
fn zstd_encode_all(data: &[u8], level: i32) -> (r: Result<Vec<u8>, std::io::Error>)
    ensures
        r is Ok,
        r matches Ok(v) ==> v@ == zstd_frame(data@, level as int),
        r matches Ok(v) ==> zstd_unframe(v@) == Some(data@),
{
    zstd::encode_all(data, level)
}

/// Calls `zstd::decode_all`: the bytes of the zstd frame(s) in `data`, or an error for
/// input that is not a valid frame.
#[verifier::external_body]
fn zstd_decode_all(data: &[u8]) -> (r: Result<Vec<u8>, std::io::Error>)
    ensures
        r is Ok <==> zstd_unframe(data@) is Some,
        r matches Ok(v) ==> zstd_unframe(data@) == Some(v@),
{
    zstd::decode_all(data)
}

/// Writes the bytes through a `brotli::CompressorWriter` into a vector and drops the
/// writer, which finishes the stream. The encoder clamps quality and window into range and
/// a vector accepts every write, so with a non-empty buffer the write succeeds; the result
/// is the Brotli stream of the input for these parameters, and a `DecompressorWriter` gives
/// the input back from it.
#[verifier::external_body]
pub(crate) fn brotli_compress_stream(data: &[u8], buffer_size: usize, quality: u32, lgwin: u32) -> (r: Result<Vec<u8>, std::io::Error>)
    ensures
        buffer_size > 0 ==> r is Ok,
        r matches Ok(v) ==> v@ == brotli_stream(data@, buffer_size as int, quality as int, lgwin as int),
        r matches Ok(v) ==> brotli_unstream(v@) == Some(data@),
{
    let mut out: Vec<u8> = Vec::new();
    let written = {
        let mut encoder = brotli::CompressorWriter::new(&mut out, buffer_size, quality, lgwin);
        encoder.write_all(data)
    };
    match written {
        Ok(()) => Ok(out),
        Err(e) => Err(e),
    }
}

/// Writes the bytes through a `brotli::DecompressorWriter` into a vector and drops the
/// writer (which ignores a failure to finish the stream): the decoded bytes, or the error
/// that writing malformed input reports.
#[verifier::external_body]
fn brotli_decompress_stream(data: &[u8], buffer_size: usize) -> (r: Result<Vec<u8>, std::io::Error>)
    ensures
        r is Ok <==> brotli_unstream(data@) is Some,
        r matches Ok(v) ==> brotli_unstream(data@) == Some(v@),
{
    let mut out: Vec<u8> = Vec::new();
    let written = {
        let mut decoder = brotli::DecompressorWriter::new(&mut out, buffer_size);
        decoder.write_all(data)
    };
    match written {
        Ok(()) => Ok(out),
        Err(e) => Err(e),
    }
}

/// The I/O buffer size handed to the Brotli writers.
pub const BROTLI_BUFFER_SIZE: usize = 4096;

/// The Brotli window size (log2) used for compression.
pub const BROTLI_LGWIN: u32 = 22;

/// The LZ4 layer: ultra-fast compression (~400 MB/s).
pub struct Lz4Layer;

impl Lz4Layer {
    pub const NAME: &'static str = "Layer 1: LZ4";
    pub const ALGORITHM: &'static str = "lz4_flex";
    pub const COLOR: &'static str = "#00D4FF";

    /// LZ4 block compression with the size prepended; it does not fail.
    pub fn compress(data: &[u8]) -> (r: Result<Vec<u8>, CompressionError>)
        ensures
            r matches Ok(v) && v@ == lz4_block(data@),
            r matches Ok(v) ==> (data@.len() <= u32::MAX ==> lz4_unblock(v@) == Some(data@)),
            r matches Ok(v) ==> (data@.len() <= u32::MAX ==> v@.len() >= 4 && v@.take(4) == le32_bytes(data@.len())),
    {
        Ok(lz4_compress_prepend_size(data))
    }

    /// LZ4 block decompression of size-prepended data.
    pub fn decompress(data: &[u8]) -> (r: Result<Vec<u8>, CompressionError>)
        ensures
            r is Ok <==> lz4_unblock(data@) is Some,
            r matches Ok(v) ==> lz4_unblock(data@) == Some(v@),
            r matches Err(e) ==> e == CompressionError::Lz4Decode,
    {
        match lz4_decompress_size_prepended(data) {
            Ok(v) => Ok(v),
            Err(_) => Err(CompressionError::Lz4Decode),
        }
    }

    /// LZ4 compression together with the layer's detail record.
    pub fn compress_with_detail(data: &[u8]) -> (r: Result<(Vec<u8>, LayerDetail), CompressionError>)
        ensures
            r matches Ok((out, d)) && out@ == lz4_block(data@) && d.name@ == Self::NAME@
                && d.algorithm@ == Self::ALGORITHM@ && d.input_size == data@.len()
                && d.output_size == out@.len() && d.color@ == Self::COLOR@,
    {
        let input_size = data.len() as u64;
        let output = Self::compress(data)?;
        let output_size = output.len() as u64;
        let detail = LayerDetail {
            name: String::from_str(Self::NAME),
            algorithm: String::from_str(Self::ALGORITHM),
            input_size,
            output_size,
            color: String::from_str(Self::COLOR),
        };
        Ok((output, detail))
    }

    /// The LZ4 compression ratio of `data`, as `(numerator, denominator)`: compressed
    /// length over input length, or `(1, 1)` for empty input.
    pub fn probe_ratio(data: &[u8]) -> (r: (u64, u64))
        ensures
            data@.len() == 0 ==> r == (1u64, 1u64),
            data@.len() > 0 ==> r.0 == lz4_block(data@).len() && r.1 == data@.len(),
    {
        let original_size = data.len() as u64;
        if original_size == 0 {
            return (1, 1);
        }
        let compressed = lz4_compress_prepend_size(data);
        (compressed.len() as u64, original_size)
    }
}

/// The text `zstd level {level}`.
pub open spec fn zstd_algorithm_name(level: int) -> Seq<char> {
    "zstd level "@ + signed_decimal(level)
}

/// The text `brotli level {level}`.
pub open spec fn brotli_algorithm_name(level: nat) -> Seq<char> {
    "brotli level "@ + decimal(level)
}

/// Builds `zstd level {level}`.
pub fn zstd_algorithm(level: i32) -> (s: String)
    ensures
        s@ == zstd_algorithm_name(level as int),
{
    let mut s = String::from_str("zstd level ");
    push_signed_decimal(&mut s, level as i64);
    s
}

/// Builds `brotli level {level}`.
pub fn brotli_algorithm(level: u32) -> (s: String)
    ensures
        s@ == brotli_algorithm_name(level as nat),
{
    let mut s = String::from_str("brotli level ");
    push_decimal(&mut s, level as u64);
    s
}

/// The Zstandard layer: balanced ratio and speed.
pub struct ZstdLayer;

impl ZstdLayer {
    pub const NAME: &'static str = "Layer 2: Zstandard";
    pub const COLOR: &'static str = "#00FF41";
    pub const DEFAULT_LEVEL: i32 = 15;

    /// Zstandard compression at `level`.
    pub fn compress(data: &[u8], level: i32) -> (r: Result<Vec<u8>, CompressionError>)
        ensures
            r is Ok,
            r matches Ok(v) ==> v@ == zstd_frame(data@, level as int),
            r matches Ok(v) ==> zstd_unframe(v@) == Some(data@),
            r matches Err(e) ==> e == CompressionError::ZstdEncode,
    {
        match zstd_encode_all(data, level) {
            Ok(v) => Ok(v),
            Err(_) => Err(CompressionError::ZstdEncode),
        }
    }

    /// Zstandard decompression.
    pub fn decompress(data: &[u8]) -> (r: Result<Vec<u8>, CompressionError>)
        ensures
            r is Ok <==> zstd_unframe(data@) is Some,
            r matches Ok(v) ==> zstd_unframe(data@) == Some(v@),
            r matches Err(e) ==> e == CompressionError::ZstdDecode,
    {
        match zstd_decode_all(data) {
            Ok(v) => Ok(v),
            Err(_) => Err(CompressionError::ZstdDecode),
        }
    }

    /// Zstandard compression together with the layer's detail record.
    pub fn compress_with_detail(data: &[u8], level: i32) -> (r: Result<(Vec<u8>, LayerDetail), CompressionError>)
        ensures
            r is Ok,
            r matches Ok((out, d)) ==> out@ == zstd_frame(data@, level as int) && d.name@ == Self::NAME@
                && d.algorithm@ == zstd_algorithm_name(level as int) && d.input_size == data@.len()
                && d.output_size == out@.len() && d.color@ == Self::COLOR@,
            r matches Err(e) ==> e == CompressionError::ZstdEncode,
    {
        let input_size = data.len() as u64;
        let output = Self::compress(data, level)?;
        let output_size = output.len() as u64;
        let detail = LayerDetail {
            name: String::from_str(Self::NAME),
            algorithm: zstd_algorithm(level),
            input_size,
            output_size,
            color: String::from_str(Self::COLOR),
        };
        Ok((output, detail))
    }
}

/// The Brotli layer: maximum ratio, for archival.
pub struct BrotliLayer;

impl BrotliLayer {
    pub const NAME: &'static str = "Layer 3: Brotli";
    pub const COLOR: &'static str = "#FFB800";
    pub const DEFAULT_LEVEL: u32 = 11;

    /// Brotli compression at quality `level`, window 22, through a 4096-byte buffer.
    pub fn compress(data: &[u8], level: u32) -> (r: Result<Vec<u8>, CompressionError>)
        ensures
            r is Ok,
            r matches Ok(v) ==> v@ == brotli_stream(data@, BROTLI_BUFFER_SIZE as int, level as int, BROTLI_LGWIN as int),
            r matches Ok(v) ==> brotli_unstream(v@) == Some(data@),
            r matches Err(e) ==> e == CompressionError::BrotliEncode,
    {
        match brotli_compress_stream(data, BROTLI_BUFFER_SIZE, level, BROTLI_LGWIN) {
            Ok(v) => Ok(v),
            Err(_) => Err(CompressionError::BrotliEncode),
        }
    }

    /// Brotli decompression.
    pub fn decompress(data: &[u8]) -> (r: Result<Vec<u8>, CompressionError>)
        ensures
            r is Ok <==> brotli_unstream(data@) is Some,
            r matches Ok(v) ==> brotli_unstream(data@) == Some(v@),
            r matches Err(e) ==> e == CompressionError::BrotliDecode,
    {
        match brotli_decompress_stream(data, BROTLI_BUFFER_SIZE) {
            Ok(v) => Ok(v),
            Err(_) => Err(CompressionError::BrotliDecode),
        }
    }

    /// Brotli compression together with the layer's detail record.
    pub fn compress_with_detail(data: &[u8], level: u32) -> (r: Result<(Vec<u8>, LayerDetail), CompressionError>)
        ensures
            r is Ok,
            r matches Ok((out, d)) ==> out@ == brotli_stream(data@, BROTLI_BUFFER_SIZE as int, level as int, BROTLI_LGWIN as int)
                && d.name@ == Self::NAME@ && d.algorithm@ == brotli_algorithm_name(level as nat)
                && d.input_size == data@.len() && d.output_size == out@.len() && d.color@ == Self::COLOR@,
            r matches Err(e) ==> e == CompressionError::BrotliEncode,
    {
        let input_size = data.len() as u64;
        let output = Self::compress(data, level)?;
        let output_size = output.len() as u64;
        let detail = LayerDetail {
            name: String::from_str(Self::NAME),
            algorithm: brotli_algorithm(level),
            input_size,
            output_size,
            color: String::from_str(Self::COLOR),
        };
        Ok((output, detail))
    }
}

} // verus!
