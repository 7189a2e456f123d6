//! The triple-layer pipeline: LZ4 → Zstandard → Brotli, skipping incompressible data.
use vstd::prelude::*;

use crate::clock::{instant_now, millis_since};
use crate::compression::layers::{
    brotli_algorithm_name, brotli_stream, brotli_unstream, le32_bytes, lz4_block, lz4_unblock, zstd_algorithm_name,
    zstd_frame, zstd_unframe, BrotliLayer, Lz4Layer, ZstdLayer, BROTLI_BUFFER_SIZE, BROTLI_LGWIN,
};
use crate::compression::types::{CompressionError, CompressionStats, LayerDetail};
use crate::digest::{blake3_hex, blake3_hex_digest};
use crate::compression::layers::{brotli_algorithm, zstd_algorithm};
use crate::text::eq_lit;

verus! {

/// Whether a detail record holds exactly these values.
pub open spec fn detail_is(d: LayerDetail, name: Seq<char>, algorithm: Seq<char>, input_size: int, output_size: int, color: Seq<char>) -> bool {
    &&& d.name@ == name
    &&& d.algorithm@ == algorithm
    &&& d.input_size == input_size
    &&& d.output_size == output_size
    &&& d.color@ == color
}

/// Whether LZ4 left more than 98% of a non-empty input, in which case the remaining layers
/// are skipped. Empty input goes through every layer, so that it decompresses again.
pub open spec fn incompressible(original_size: nat, lz4_size: nat) -> bool {
    original_size > 0 && 50 * lz4_size > 49 * original_size
}

/// The bytes that the full pipeline produces for `data` at the given levels.
pub open spec fn triple_packed(data: Seq<u8>, zstd_level: int, brotli_level: int) -> Seq<u8> {
    brotli_stream(
        zstd_frame(lz4_block(data), zstd_level),
        BROTLI_BUFFER_SIZE as int,
        brotli_level,
        BROTLI_LGWIN as int,
    )
}

/// Undoing the pipeline: Brotli, then Zstandard, then LZ4 decoding.
pub open spec fn triple_unpack(data: Seq<u8>) -> Option<Seq<u8>> {
    match brotli_unstream(data) {
        Some(b) => match zstd_unframe(b) {
            Some(z) => lz4_unblock(z),
            None => None,
        },
        None => None,
    }
}

/// The triple-layer compression engine.
pub struct TripleCompressor {
    zstd_level: i32,
    brotli_level: u32,
}

impl TripleCompressor {
    /// The Zstandard level this compressor uses.
    pub closed spec fn zstd_level(&self) -> int {
        self.zstd_level as int
    }

    /// The Brotli quality this compressor uses.
    pub closed spec fn brotli_level(&self) -> int {
        self.brotli_level as int
    }

    /// A compressor with Zstandard level 15 and Brotli quality 11.
    pub fn new() -> (c: Self)
        ensures
            c.zstd_level() == 15,
            c.brotli_level() == 11,
    {
        TripleCompressor { zstd_level: 15, brotli_level: 11 }
    }

    /// Layer 1: LZ4 compression.
    pub fn compress_lz4(&self, data: &[u8]) -> (r: Result<Vec<u8>, CompressionError>)
        ensures
            r matches Ok(v) && v@ == lz4_block(data@),
            r matches Ok(v) ==> (data@.len() <= u32::MAX ==> lz4_unblock(v@) == Some(data@)),
            r matches Ok(v) ==> (data@.len() <= u32::MAX ==> v@.len() >= 4 && v@.take(4) == le32_bytes(data@.len())),
    {
        Lz4Layer::compress(data)
    }

    /// Layer 1: LZ4 decompression.
    pub fn decompress_lz4(&self, data: &[u8]) -> (r: Result<Vec<u8>, CompressionError>)
        ensures
            r is Ok <==> lz4_unblock(data@) is Some,
            r matches Ok(v) ==> lz4_unblock(data@) == Some(v@),
            r matches Err(e) ==> e == CompressionError::Lz4Decode,
    {
        Lz4Layer::decompress(data)
    }

    /// Layer 2: Zstandard compression at this compressor's level.
    pub fn compress_zstd(&self, data: &[u8]) -> (r: Result<Vec<u8>, CompressionError>)
        ensures
            r is Ok,
            r matches Ok(v) ==> v@ == zstd_frame(data@, self.zstd_level()),
            r matches Ok(v) ==> zstd_unframe(v@) == Some(data@),
            r matches Err(e) ==> e == CompressionError::ZstdEncode,
    {
        ZstdLayer::compress(data, self.zstd_level)
    }

    /// Layer 2: Zstandard decompression.
    pub fn decompress_zstd(&self, data: &[u8]) -> (r: Result<Vec<u8>, CompressionError>)
        ensures
            r is Ok <==> zstd_unframe(data@) is Some,
            r matches Ok(v) ==> zstd_unframe(data@) == Some(v@),
            r matches Err(e) ==> e == CompressionError::ZstdDecode,
    {
        ZstdLayer::decompress(data)
    }

    /// Layer 3: Brotli compression at this compressor's quality.
    pub fn compress_brotli(&self, data: &[u8]) -> (r: Result<Vec<u8>, CompressionError>)
        ensures
            r is Ok,
            r matches Ok(v) ==> v@ == brotli_stream(data@, BROTLI_BUFFER_SIZE as int, self.brotli_level(), BROTLI_LGWIN as int),
            r matches Ok(v) ==> brotli_unstream(v@) == Some(data@),
            r matches Err(e) ==> e == CompressionError::BrotliEncode,
    {
        BrotliLayer::compress(data, self.brotli_level)
    }

    /// Layer 3: Brotli decompression.
    pub fn decompress_brotli(&self, data: &[u8]) -> (r: Result<Vec<u8>, CompressionError>)
        ensures
            r is Ok <==> brotli_unstream(data@) is Some,
            r matches Ok(v) ==> brotli_unstream(data@) == Some(v@),
            r matches Err(e) ==> e == CompressionError::BrotliDecode,
    {
        BrotliLayer::decompress(data)
    }

    /// Compresses with the single layer named `lz4`, `zstd` or `brotli`; any other name is an error.
    pub fn compress_data(&self, data: &[u8], layer: &str) -> (r: Result<(Vec<u8>, LayerDetail), CompressionError>)
        ensures
            r is Ok <==> (layer@ == "lz4"@ || layer@ == "zstd"@ || layer@ == "brotli"@),
            layer@ == "lz4"@ ==> (r matches Ok((out, d)) && out@ == lz4_block(data@)
                && detail_is(d, Lz4Layer::NAME@, Lz4Layer::ALGORITHM@, data@.len() as int, out@.len() as int, Lz4Layer::COLOR@)),
            layer@ == "zstd"@ ==> match r {
                Ok((out, d)) => out@ == zstd_frame(data@, self.zstd_level())
                    && detail_is(d, ZstdLayer::NAME@, zstd_algorithm_name(self.zstd_level()), data@.len() as int, out@.len() as int, ZstdLayer::COLOR@),
                Err(e) => e == CompressionError::ZstdEncode,
            },
            layer@ == "brotli"@ ==> match r {
                Ok((out, d)) => out@ == brotli_stream(data@, BROTLI_BUFFER_SIZE as int, self.brotli_level(), BROTLI_LGWIN as int)
                    && detail_is(d, BrotliLayer::NAME@, brotli_algorithm_name(self.brotli_level() as nat), data@.len() as int, out@.len() as int, BrotliLayer::COLOR@),
                Err(e) => e == CompressionError::BrotliEncode,
            },
            layer@ != "lz4"@ && layer@ != "zstd"@ && layer@ != "brotli"@
                ==> (r matches Err(CompressionError::UnknownLayer(name)) && name@ == layer@),
    {
        proof {
            reveal_strlit("lz4");
            reveal_strlit("zstd");
            reveal_strlit("brotli");
            assert("lz4"@.len() == 3 && "zstd"@.len() == 4 && "brotli"@.len() == 6);
        }
        let name = crate::text::chars_of(layer);
        if eq_lit(&name, "lz4") {
            Lz4Layer::compress_with_detail(data)
        } else if eq_lit(&name, "zstd") {
            ZstdLayer::compress_with_detail(data, self.zstd_level)
        } else if eq_lit(&name, "brotli") {
            BrotliLayer::compress_with_detail(data, self.brotli_level)
        } else {
            Err(CompressionError::UnknownLayer(String::from_str(layer)))
        }
    }
}

impl TripleCompressor {
    /// Triple-layer compression: LZ4 → Zstandard → Brotli. When LZ4 leaves more than 98%
    /// of a non-empty input, the data is returned unchanged and the other layers are skipped.
    pub fn compress_triple(&self, data: &[u8]) -> (r: Result<(Vec<u8>, CompressionStats), CompressionError>)
        ensures
            r is Ok,
            match r {
                Ok((out, stats)) => {
                    let lz = lz4_block(data@);
                    &&& stats.original_size == data@.len()
                    &&& stats.blake3_hash@ == blake3_hex(data@)
                    &&& if incompressible(data@.len(), lz.len()) {
                        &&& out@ == data@
                        &&& stats.compressed_size == data@.len()
                        &&& stats.layer@ == "skipped (incompressible)"@
                        &&& stats.layer_details@.len() == 1
                        &&& detail_is(stats.layer_details@[0], "LZ4 probe"@, Lz4Layer::ALGORITHM@,
                            data@.len() as int, lz.len() as int, "#6B7280"@)
                    } else {
                        let z = zstd_frame(lz, self.zstd_level());
                        &&& out@ == triple_packed(data@, self.zstd_level(), self.brotli_level())
                        &&& stats.compressed_size == out@.len()
                        &&& stats.layer@ == "triple"@
                        &&& stats.layer_details@.len() == 3
                        &&& detail_is(stats.layer_details@[0], Lz4Layer::NAME@, Lz4Layer::ALGORITHM@,
                            data@.len() as int, lz.len() as int, Lz4Layer::COLOR@)
                        &&& detail_is(stats.layer_details@[1], ZstdLayer::NAME@, zstd_algorithm_name(self.zstd_level()),
                            lz.len() as int, z.len() as int, ZstdLayer::COLOR@)
                        &&& detail_is(stats.layer_details@[2], BrotliLayer::NAME@,
                            brotli_algorithm_name(self.brotli_level() as nat), z.len() as int, out@.len() as int,
                            BrotliLayer::COLOR@)
                        &&& (data@.len() <= u32::MAX ==> triple_unpack(out@) == Some(data@))
                    }
                },
                Err(e) => !incompressible(data@.len(), lz4_block(data@).len())
                    && (e == CompressionError::ZstdEncode || e == CompressionError::BrotliEncode),
            },
    {
        let original_size = data.len() as u64;
        let start = instant_now();
        let lz4_out = Lz4Layer::compress(data)?;
        let lz4_size = lz4_out.len() as u64;
        let skip = original_size > 0 && (lz4_size as u128) * 50 > (original_size as u128) * 49;
        if skip {
            let hash = blake3_hex_digest(data);
            let duration_ms = millis_since(&start);
            let probe = LayerDetail {
                name: String::from_str("LZ4 probe"),
                algorithm: String::from_str(Lz4Layer::ALGORITHM),
                input_size: original_size,
                output_size: lz4_size,
                color: String::from_str("#6B7280"),
            };
            let mut details: Vec<LayerDetail> = Vec::new();
            details.push(probe);
            let stats = CompressionStats {
                original_size,
                compressed_size: original_size,
                layer: String::from_str("skipped (incompressible)"),
                layer_details: details,
                blake3_hash: hash,
                duration_ms,
            };
            return Ok((vstd::slice::slice_to_vec(data), stats));
        }
        let lz4_detail = LayerDetail {
            name: String::from_str(Lz4Layer::NAME),
            algorithm: String::from_str(Lz4Layer::ALGORITHM),
            input_size: original_size,
            output_size: lz4_size,
            color: String::from_str(Lz4Layer::COLOR),
        };
        let zstd_out = ZstdLayer::compress(&lz4_out, self.zstd_level)?;
        let zstd_detail = LayerDetail {
            name: String::from_str(ZstdLayer::NAME),
            algorithm: zstd_algorithm(self.zstd_level),
            input_size: lz4_size,
            output_size: zstd_out.len() as u64,
            color: String::from_str(ZstdLayer::COLOR),
        };
        let brotli_out = BrotliLayer::compress(&zstd_out, self.brotli_level)?;
        let brotli_detail = LayerDetail {
            name: String::from_str(BrotliLayer::NAME),
            algorithm: brotli_algorithm(self.brotli_level),
            input_size: zstd_out.len() as u64,
            output_size: brotli_out.len() as u64,
            color: String::from_str(BrotliLayer::COLOR),
        };
        let duration_ms = millis_since(&start);
        let hash = blake3_hex_digest(data);
        let compressed_size = brotli_out.len() as u64;
        let mut details: Vec<LayerDetail> = Vec::new();
        details.push(lz4_detail);
        details.push(zstd_detail);
        details.push(brotli_detail);
        let stats = CompressionStats {
            original_size,
            compressed_size,
            layer: String::from_str("triple"),
            layer_details: details,
            blake3_hash: hash,
            duration_ms,
        };
        assert(details@[0] == lz4_detail && details@[1] == zstd_detail && details@[2] == brotli_detail);
        assert(data@.len() <= u32::MAX ==> triple_unpack(brotli_out@) == Some(data@));
        Ok((brotli_out, stats))
    }

    /// Triple-layer decompression: Brotli → Zstandard → LZ4, with the time it took in milliseconds.
    pub fn decompress_triple(&self, data: &[u8]) -> (r: Result<(Vec<u8>, u64), CompressionError>)
        ensures
            r is Ok <==> triple_unpack(data@) is Some,
            r matches Ok((v, _)) ==> triple_unpack(data@) == Some(v@),
    {
        let start = instant_now();
        let brotli_out = BrotliLayer::decompress(data)?;
        let zstd_out = ZstdLayer::decompress(&brotli_out)?;
        let lz4_out = Lz4Layer::decompress(&zstd_out)?;
        let duration_ms = millis_since(&start);
        Ok((lz4_out, duration_ms))
    }

    /// The BLAKE3 hash of `data` as lowercase hexadecimal, for deduplication.
    pub fn blake3_hash(data: &[u8]) -> (r: String)
        ensures
            r@ == blake3_hex(data@),
            r@.len() == 64,
    {
        blake3_hex_digest(data)
    }
}

} // verus!
