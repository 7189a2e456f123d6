//! Compression kinds, per-layer details and whole-pipeline statistics.
//!
//! Ratios are not stored: a ratio is always `output_size / input_size`, or 1 when
//! the input is empty, so it is a function of the two sizes that are stored.
use vstd::prelude::*;

verus! {

/// The compression applied to a stored file.
#[derive(Debug, Clone, PartialEq, Eq, Hash, Structural)]
pub enum CompressionType {
    Uncompressed,
    Lz4,
    Zstd,
    /// LZ4 → ZSTD → Brotli
    TripleLayer,
}

impl CompressionType {
    pub open spec fn display_name_spec(&self) -> Seq<char> {
        match self {
            CompressionType::Uncompressed => "Uncompressed"@,
            CompressionType::Lz4 => "LZ4 (Real-Time)"@,
            CompressionType::Zstd => "Zstandard (Balanced)"@,
            CompressionType::TripleLayer => "Triple-Layer (LZ4→ZSTD→Brotli)"@,
        }
    }

    pub open spec fn color_spec(&self) -> Seq<char> {
        match self {
            CompressionType::Uncompressed => "#6B7280"@,
            CompressionType::Lz4 => "#00D4FF"@,
            CompressionType::Zstd => "#00FF41"@,
            CompressionType::TripleLayer => "#FFB800"@,
        }
    }

    pub open spec fn speed_label_spec(&self) -> Seq<char> {
        match self {
            CompressionType::Uncompressed => "N/A"@,
            CompressionType::Lz4 => "Ultra-Fast (~400 MB/s)"@,
            CompressionType::Zstd => "Fast (configurable 1-22)"@,
            CompressionType::TripleLayer => "Slow (maximum ratio)"@,
        }
    }

    /// Human-readable name of the compression kind.
    pub fn display_name(&self) -> (r: &str)
        ensures
            r@ == self.display_name_spec(),
    {
        match self {
            CompressionType::Uncompressed => "Uncompressed",
            CompressionType::Lz4 => "LZ4 (Real-Time)",
            CompressionType::Zstd => "Zstandard (Balanced)",
            CompressionType::TripleLayer => "Triple-Layer (LZ4→ZSTD→Brotli)",
        }
    }

    /// Display color of the compression kind.
    pub fn color(&self) -> (r: &str)
        ensures
            r@ == self.color_spec(),
    {
        match self {
            CompressionType::Uncompressed => "#6B7280",
            CompressionType::Lz4 => "#00D4FF",
            CompressionType::Zstd => "#00FF41",
            CompressionType::TripleLayer => "#FFB800",
        }
    }

    /// Speed description of the compression kind.
    pub fn speed_label(&self) -> (r: &str)
        ensures
            r@ == self.speed_label_spec(),
    {
        match self {
            CompressionType::Uncompressed => "N/A",
            CompressionType::Lz4 => "Ultra-Fast (~400 MB/s)",
            CompressionType::Zstd => "Fast (configurable 1-22)",
            CompressionType::TripleLayer => "Slow (maximum ratio)",
        }
    }
}

/// What one compression layer did to its input.
#[derive(Debug, Clone)]
pub struct LayerDetail {
    pub name: String,
    pub algorithm: String,
    pub input_size: u64,
    pub output_size: u64,
    pub color: String,
}

/// Statistics of one whole compression run.
#[derive(Debug, Clone)]
pub struct CompressionStats {
    pub original_size: u64,
    pub compressed_size: u64,
    pub layer: String,
    pub layer_details: Vec<LayerDetail>,
    pub blake3_hash: String,
    pub duration_ms: u64,
}

/// The ratio `output / input` as a numerator and a denominator: `(1, 1)` for an empty input.
pub open spec fn ratio_parts(input_size: u64, output_size: u64) -> (nat, nat) {
    if input_size > 0 {
        (output_size as nat, input_size as nat)
    } else {
        (1, 1)
    }
}

impl LayerDetail {
    /// This layer's compression ratio, as `(numerator, denominator)`.
    pub fn ratio(&self) -> (r: (u64, u64))
        ensures
            (r.0 as nat, r.1 as nat) == ratio_parts(self.input_size, self.output_size),
    {
        if self.input_size > 0 { (self.output_size, self.input_size) } else { (1, 1) }
    }
}

impl CompressionStats {
    /// The overall compression ratio, as `(numerator, denominator)`.
    pub fn ratio(&self) -> (r: (u64, u64))
        ensures
            (r.0 as nat, r.1 as nat) == ratio_parts(self.original_size, self.compressed_size),
    {
        if self.original_size > 0 { (self.compressed_size, self.original_size) } else { (1, 1) }
    }
}

/// Why a compression or decompression failed.
#[derive(Debug, Clone, PartialEq, Eq)]
pub enum CompressionError {
    /// LZ4 block data could not be decoded.
    Lz4Decode,
    /// The zstd stream could not be encoded.
    ZstdEncode,
    /// The zstd stream could not be decoded.
    ZstdDecode,
    /// The Brotli stream could not be encoded.
    BrotliEncode,
    /// The Brotli stream could not be decoded.
    BrotliDecode,
    /// A layer name other than `lz4`, `zstd` or `brotli` was asked for.
    UnknownLayer(String),
}

impl CompressionError {
    /// The text of the error.
    pub open spec fn message_spec(&self) -> Seq<char> {
        match self {
            CompressionError::Lz4Decode => "LZ4 decompression failed"@,
            CompressionError::ZstdEncode => "Zstandard compression failed"@,
            CompressionError::ZstdDecode => "Zstandard decompression failed"@,
            CompressionError::BrotliEncode => "Brotli compression failed"@,
            CompressionError::BrotliDecode => "Brotli decompression failed"@,
            CompressionError::UnknownLayer(name) => "Unknown compression layer: "@ + name@,
        }
    }

    /// The text of the error.
    pub fn message(&self) -> (r: String)
        ensures
            r@ == self.message_spec(),
    {
        match self {
            CompressionError::Lz4Decode => String::from_str("LZ4 decompression failed"),
            CompressionError::ZstdEncode => String::from_str("Zstandard compression failed"),
            CompressionError::ZstdDecode => String::from_str("Zstandard decompression failed"),
            CompressionError::BrotliEncode => String::from_str("Brotli compression failed"),
            CompressionError::BrotliDecode => String::from_str("Brotli decompression failed"),
            CompressionError::UnknownLayer(name) => {
                let mut m = String::from_str("Unknown compression layer: ");
                m.append(name.as_str());
                m
            },
        }
    }
}

} // verus!
