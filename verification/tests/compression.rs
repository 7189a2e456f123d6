use cybermanju_drive::compression::browser::{compress_brotli, compress_lz4, decompress_brotli, decompress_lz4};
use cybermanju_drive::compression::files::{
    check_compression_layer, compress_contents, decompress_contents, is_incompressible_mime, record_layer,
    removed_layer_details, stored_compression_stats,
};
use cybermanju_drive::compression::layers::{BrotliLayer, Lz4Layer, ZstdLayer};
use cybermanju_drive::compression::triple::TripleCompressor;
use cybermanju_drive::compression::types::{CompressionError, CompressionType};

fn ratio_of(parts: (u64, u64)) -> f64 {
    parts.0 as f64 / parts.1 as f64
}

#[test]
fn test_compression_type_display_names() {
    assert_eq!(CompressionType::Uncompressed.display_name(), "Uncompressed");
    assert_eq!(CompressionType::Lz4.display_name(), "LZ4 (Real-Time)");
    assert_eq!(CompressionType::Zstd.display_name(), "Zstandard (Balanced)");
    assert_eq!(CompressionType::TripleLayer.display_name(), "Triple-Layer (LZ4→ZSTD→Brotli)");
}

#[test]
fn test_compression_type_colors() {
    assert_eq!(CompressionType::Uncompressed.color(), "#6B7280");
    assert_eq!(CompressionType::Lz4.color(), "#00D4FF");
    assert_eq!(CompressionType::Zstd.color(), "#00FF41");
    assert_eq!(CompressionType::TripleLayer.color(), "#FFB800");
}

#[test]
fn test_compression_type_speed_labels() {
    assert_eq!(CompressionType::Uncompressed.speed_label(), "N/A");
    assert!(CompressionType::Lz4.speed_label().contains("400 MB/s"));
    assert!(CompressionType::Zstd.speed_label().contains("configurable"));
    assert!(CompressionType::TripleLayer.speed_label().contains("maximum ratio"));
}

#[test]
fn test_lz4_roundtrip_repeated_data() {
    let data = vec![42u8; 10000];
    let compressed = Lz4Layer::compress(&data).unwrap();
    let decompressed = Lz4Layer::decompress(&compressed).unwrap();
    assert_eq!(data, decompressed);
    assert!(compressed.len() < data.len() / 10);
}

#[test]
fn test_lz4_roundtrip_text_data() {
    let text = b"The quick brown fox jumps over the lazy dog. \
                  The quick brown fox jumps over the lazy dog. \
                  The quick brown fox jumps over the lazy dog.";
    let compressed = Lz4Layer::compress(text).unwrap();
    let decompressed = Lz4Layer::decompress(&compressed).unwrap();
    assert_eq!(text.as_slice(), decompressed.as_slice());
}

#[test]
fn test_lz4_roundtrip_empty() {
    let compressed = Lz4Layer::compress(b"").unwrap();
    let decompressed = Lz4Layer::decompress(&compressed).unwrap();
    assert!(decompressed.is_empty());
}

#[test]
fn test_lz4_roundtrip_single_byte() {
    let data = [0xFF];
    let compressed = Lz4Layer::compress(&data).unwrap();
    let decompressed = Lz4Layer::decompress(&compressed).unwrap();
    assert_eq!(&data, decompressed.as_slice());
}

#[test]
fn test_lz4_detail() {
    let data = b"compression test data here";
    let (compressed, detail) = Lz4Layer::compress_with_detail(data).unwrap();
    assert_eq!(detail.name, "Layer 1: LZ4");
    assert_eq!(detail.algorithm, "lz4_flex");
    assert_eq!(detail.input_size, data.len() as u64);
    assert_eq!(detail.output_size, compressed.len() as u64);
}

#[test]
fn test_lz4_probe_ratio_compressible() {
    let repeated = vec![0u8; 10000];
    let ratio = ratio_of(Lz4Layer::probe_ratio(&repeated));
    assert!(ratio < 0.1, "repeated data should compress massively");
}

#[test]
fn test_lz4_probe_ratio_empty_is_one() {
    assert_eq!(Lz4Layer::probe_ratio(b""), (1, 1));
}

#[test]
fn test_zstd_roundtrip_repeated_data() {
    let data = vec![0xABu8; 50000];
    let compressed = ZstdLayer::compress(&data, 3).unwrap();
    let decompressed = ZstdLayer::decompress(&compressed).unwrap();
    assert_eq!(data, decompressed);
    assert!(compressed.len() < data.len() / 10);
}

#[test]
fn test_zstd_roundtrip_text_data() {
    let text = b"Lorem ipsum dolor sit amet, consectetur adipiscing elit. \
                  Sed do eiusmod tempor incididunt ut labore et dolore magna aliqua.";
    let compressed = ZstdLayer::compress(text, 3).unwrap();
    let decompressed = ZstdLayer::decompress(&compressed).unwrap();
    assert_eq!(text.as_slice(), decompressed.as_slice());
}

#[test]
fn test_zstd_roundtrip_empty() {
    let compressed = ZstdLayer::compress(b"", 3).unwrap();
    let decompressed = ZstdLayer::decompress(&compressed).unwrap();
    assert!(decompressed.is_empty());
}

#[test]
fn test_zstd_higher_level_better_ratio() {
    let data = vec![0u8; 50000];
    let fast = ZstdLayer::compress(&data, 1).unwrap();
    let max = ZstdLayer::compress(&data, 22).unwrap();
    assert!(max.len() <= fast.len());
}

#[test]
fn test_zstd_detail() {
    let data = b"zstd detail test";
    let (_, detail) = ZstdLayer::compress_with_detail(data, 5).unwrap();
    assert_eq!(detail.name, "Layer 2: Zstandard");
    assert!(detail.algorithm.contains("zstd level 5"));
}

#[test]
fn test_zstd_decompress_garbage_fails() {
    assert_eq!(ZstdLayer::decompress(b"not a zstd frame"), Err(CompressionError::ZstdDecode));
}

#[test]
fn test_brotli_roundtrip_repeated_data() {
    let data = vec![0xCDu8; 50000];
    let compressed = BrotliLayer::compress(&data, 6).unwrap();
    let decompressed = BrotliLayer::decompress(&compressed).unwrap();
    assert_eq!(data, decompressed);
    assert!(compressed.len() < data.len() / 10);
}

#[test]
fn test_brotli_roundtrip_text_data() {
    let text = b"Brotli compression is excellent for web assets. \
                  It achieves high compression ratios with reasonable speed.";
    let compressed = BrotliLayer::compress(text, 6).unwrap();
    let decompressed = BrotliLayer::decompress(&compressed).unwrap();
    assert_eq!(text.as_slice(), decompressed.as_slice());
}

#[test]
fn test_brotli_roundtrip_empty() {
    let compressed = BrotliLayer::compress(b"", 6).unwrap();
    let decompressed = BrotliLayer::decompress(&compressed).unwrap();
    assert!(decompressed.is_empty());
}

#[test]
fn test_brotli_higher_level_better_ratio() {
    let data = vec![0u8; 50000];
    let fast = BrotliLayer::compress(&data, 1).unwrap();
    let max = BrotliLayer::compress(&data, 11).unwrap();
    assert!(max.len() <= fast.len());
}

#[test]
fn test_brotli_detail() {
    let data = b"brotli detail test";
    let (_, detail) = BrotliLayer::compress_with_detail(data, 9).unwrap();
    assert_eq!(detail.name, "Layer 3: Brotli");
    assert!(detail.algorithm.contains("brotli level 9"));
}

#[test]
fn test_triple_roundtrip_compressible() {
    let data = vec![b'A'; 100000];
    let compressor = TripleCompressor::new();
    let (compressed, stats) = compressor.compress_triple(&data).unwrap();
    assert!(stats.compressed_size < data.len() as u64);
    assert!(ratio_of(stats.ratio()) < 0.5);
    assert_eq!(stats.layer_details.len(), 3);

    let (decompressed, _ms) = compressor.decompress_triple(&compressed).unwrap();
    assert_eq!(data, decompressed);
}

fn pseudo_random(n: usize) -> Vec<u8> {
    let mut state: u64 = 0x9E37_79B9_7F4A_7C15;
    (0..n)
        .map(|_| {
            state ^= state << 13;
            state ^= state >> 7;
            state ^= state << 17;
            (state >> 24) as u8
        })
        .collect()
}

#[test]
fn test_lz4_probe_ratio_pseudorandom() {
    let ratio = ratio_of(Lz4Layer::probe_ratio(&pseudo_random(10000)));
    assert!(ratio > 0.98);
}

#[test]
fn test_triple_skips_pseudorandom() {
    let data = pseudo_random(10000);
    let compressor = TripleCompressor::new();
    let (compressed, stats) = compressor.compress_triple(&data).unwrap();
    assert_eq!(stats.layer, "skipped (incompressible)");
    assert_eq!(data, compressed);
    assert_eq!(stats.compressed_size, 10000);
    assert_eq!(stats.layer_details.len(), 1);
    assert_eq!(stats.layer_details[0].name, "LZ4 probe");
    assert_eq!(stats.layer_details[0].color, "#6B7280");
}

#[test]
fn test_triple_compression_empty() {
    let compressor = TripleCompressor::new();
    let (compressed, stats) = compressor.compress_triple(b"").unwrap();
    let (decompressed, _) = compressor.decompress_triple(&compressed).unwrap();
    assert!(decompressed.is_empty());
    assert_eq!(stats.original_size, 0);
    assert_eq!(stats.layer, "triple");
    assert_eq!(stats.layer_details.len(), 3);
}

#[test]
fn test_triple_compression_stats() {
    let data = vec![b'X'; 50000];
    let compressor = TripleCompressor::new();
    let (_, stats) = compressor.compress_triple(&data).unwrap();
    assert_eq!(stats.original_size, 50000);
    assert!(stats.compressed_size > 0);
    assert!(!stats.blake3_hash.is_empty());
    assert!(stats.duration_ms <= 10000);
    assert_eq!(stats.layer_details.len(), 3);
    assert_eq!(stats.layer_details[1].algorithm, "zstd level 15");
    assert_eq!(stats.layer_details[2].algorithm, "brotli level 11");
}

#[test]
fn test_triple_compression_text() {
    let text = b"The quick brown fox jumps over the lazy dog. \
                  Pack my box with five dozen liquor jugs. \
                  How vexingly quick daft zebras jump! \
                  The five boxing wizards jump quickly.";
    let compressor = TripleCompressor::new();
    let (compressed, _stats) = compressor.compress_triple(text).unwrap();
    let (decompressed, _) = compressor.decompress_triple(&compressed).unwrap();
    assert_eq!(text.as_slice(), decompressed.as_slice());
}

#[test]
fn test_compress_data_lz4() {
    let data = vec![0u8; 10000];
    let compressor = TripleCompressor::new();
    let (compressed, detail) = compressor.compress_data(&data, "lz4").unwrap();
    assert_eq!(detail.name, "Layer 1: LZ4");
    let decompressed = Lz4Layer::decompress(&compressed).unwrap();
    assert_eq!(data, decompressed);
}

#[test]
fn test_compress_data_zstd() {
    let data = vec![0u8; 10000];
    let compressor = TripleCompressor::new();
    let (compressed, detail) = compressor.compress_data(&data, "zstd").unwrap();
    assert_eq!(detail.name, "Layer 2: Zstandard");
    let decompressed = ZstdLayer::decompress(&compressed).unwrap();
    assert_eq!(data, decompressed);
}

#[test]
fn test_compress_data_brotli() {
    let data = vec![0u8; 10000];
    let compressor = TripleCompressor::new();
    let (compressed, detail) = compressor.compress_data(&data, "brotli").unwrap();
    assert_eq!(detail.name, "Layer 3: Brotli");
    let decompressed = BrotliLayer::decompress(&compressed).unwrap();
    assert_eq!(data, decompressed);
}

#[test]
fn test_compress_data_unknown_layer() {
    let compressor = TripleCompressor::new();
    let result = compressor.compress_data(b"test", "unknown");
    assert!(result.is_err());
    match result {
        Err(CompressionError::UnknownLayer(name)) => assert_eq!(name, "unknown"),
        _ => panic!("expected an unknown-layer error"),
    }
}

#[test]
fn test_unknown_layer_message() {
    let e = CompressionError::UnknownLayer("gzip".to_string());
    assert_eq!(e.message(), "Unknown compression layer: gzip");
}

#[test]
fn test_blake3_hash_deterministic() {
    let data = b"deterministic hash test";
    let h1 = TripleCompressor::blake3_hash(data);
    let h2 = TripleCompressor::blake3_hash(data);
    assert_eq!(h1, h2);
    assert!(!h1.is_empty());
}

#[test]
fn test_blake3_hash_different_data() {
    let h1 = TripleCompressor::blake3_hash(b"data1");
    let h2 = TripleCompressor::blake3_hash(b"data2");
    assert_ne!(h1, h2);
}

#[test]
fn test_blake3_hash_known_value() {
    assert_eq!(
        TripleCompressor::blake3_hash(b""),
        "af1349b9f5f9a1a6a0404dea36dcc9499bcb25c9adc112b7cc9a93cae41f3262"
    );
}

#[test]
fn test_check_compression_layer() {
    assert!(check_compression_layer("all").is_ok());
    assert!(check_compression_layer("lz4").is_ok());
    assert_eq!(
        check_compression_layer("gzip"),
        Err("Invalid compression layer: gzip. Must be one of: lz4, zstd, brotli, all".to_string())
    );
}

#[test]
fn test_incompressible_mime_types() {
    assert!(is_incompressible_mime("image/jpeg"));
    assert!(is_incompressible_mime("application/zstd"));
    assert!(!is_incompressible_mime("text/plain"));
}

#[test]
fn test_compress_contents_all_and_decompress() {
    let compressor = TripleCompressor::new();
    let data = vec![b'Z'; 40000];
    let stats = compress_contents(&compressor, &data, "all").unwrap();
    assert_eq!(stats.layer, "triple");
    assert_eq!(stats.original_size, 40000);
    assert_eq!(stats.blake3_hash, TripleCompressor::blake3_hash(&data));
    let (packed, _) = compressor.compress_triple(&data).unwrap();
    let (size, hash) = decompress_contents(&compressor, &packed, &vec!["all".to_string()]);
    assert_eq!(size, 40000);
    assert_eq!(hash, TripleCompressor::blake3_hash(&data));
}

#[test]
fn test_decompress_contents_peels_single_layers() {
    let compressor = TripleCompressor::new();
    let data = vec![7u8; 5000];
    let packed = compressor.compress_zstd(&data).unwrap();
    let (size, hash) = decompress_contents(&compressor, &packed, &vec!["zstd".to_string(), "odd".to_string()]);
    assert_eq!(size, 5000);
    assert_eq!(hash, TripleCompressor::blake3_hash(&data));
}

#[test]
fn test_compress_contents_single_layer() {
    let compressor = TripleCompressor::new();
    let data = vec![1u8; 3000];
    let stats = compress_contents(&compressor, &data, "lz4").unwrap();
    assert_eq!(stats.layer, "lz4");
    assert_eq!(stats.layer_details.len(), 1);
    assert_eq!(stats.compressed_size, Lz4Layer::compress(&data).unwrap().len() as u64);
}

#[test]
fn test_compress_contents_names_its_codec() {
    let compressor = TripleCompressor::new();
    let data = vec![9u8; 20000];
    let z = compress_contents(&compressor, &data, "zstd").unwrap();
    assert_eq!(z.compressed_size, compressor.compress_zstd(&data).unwrap().len() as u64);
    assert_eq!(z.layer_details[0].name, "Layer 2: Zstandard");
    assert_eq!(z.layer_details[0].algorithm, "zstd level 15");
    assert_eq!(z.layer_details[0].output_size, z.compressed_size);
    let b = compress_contents(&compressor, &data, "brotli").unwrap();
    assert_eq!(b.compressed_size, compressor.compress_brotli(&data).unwrap().len() as u64);
    assert_eq!(b.layer_details[0].name, "Layer 3: Brotli");
    assert_eq!(b.layer_details[0].algorithm, "brotli level 11");
    let all = compress_contents(&compressor, &data, "all").unwrap();
    let names: Vec<&str> = all.layer_details.iter().map(|d| d.name.as_str()).collect();
    assert_eq!(names, vec!["Layer 1: LZ4", "Layer 2: Zstandard", "Layer 3: Brotli"]);
    assert_eq!(all.layer_details[0].output_size, all.layer_details[1].input_size);
    assert_eq!(all.layer_details[1].output_size, all.layer_details[2].input_size);
    assert_eq!(all.layer_details[2].output_size, all.compressed_size);
}

#[test]
fn test_record_layer_adds_once() {
    let mut layers = vec!["lz4".to_string()];
    record_layer(&mut layers, "zstd");
    record_layer(&mut layers, "zstd");
    assert_eq!(layers, vec!["lz4".to_string(), "zstd".to_string()]);
}

#[test]
fn test_stored_stats_names() {
    let layers = vec!["lz4".to_string(), "zstd".to_string(), "brotli".to_string()];
    let stats = stored_compression_stats(&layers, 99, None);
    assert_eq!(stats.layer, "triple");
    assert_eq!(stats.layer_details[0].name, "Layer 1: LZ4");
    assert_eq!(stats.layer_details[1].name, "Layer 2: Zstandard");
    assert_eq!(stats.layer_details[2].color, "#FFB800");
    assert_eq!(stats.blake3_hash, "");
    let single = stored_compression_stats(&vec!["gzip".to_string()], 5, Some("h".to_string()));
    assert_eq!(single.layer, "gzip");
    assert_eq!(single.layer_details[0].name, "Layer 1: gzip");
    assert_eq!(stored_compression_stats(&vec![], 5, None).layer, "none");
}

#[test]
fn test_removed_layer_details() {
    let details = removed_layer_details(&vec!["brotli".to_string()], 10, 100);
    assert_eq!(details[0].name, "Removed: BROTLI");
    assert_eq!(details[0].input_size, 10);
    assert_eq!(details[0].output_size, 100);
}

#[test]
fn browser_lz4_and_brotli_roundtrip_and_report_failures() {
    let data = b"browser side compression, browser side compression, browser side".to_vec();
    let packed = compress_lz4(&data);
    assert_eq!(&packed[..4], &(data.len() as u32).to_le_bytes());
    assert_eq!(decompress_lz4(&packed).unwrap(), data);
    let err = decompress_lz4(&[0xff, 0xff, 0xff, 0x7f, 1, 2]).unwrap_err();
    assert!(err.starts_with("LZ4 decompression failed: "));
    assert!(err.len() > "LZ4 decompression failed: ".len());

    let squeezed = compress_brotli(&data, 11).unwrap();
    assert_eq!(decompress_brotli(&squeezed).unwrap(), data);
    assert_eq!(decompress_brotli(&squeezed[..squeezed.len() / 2]).unwrap_err(), "Brotli finalize failed");
    let bad = decompress_brotli(&[0xff; 16]).unwrap_err();
    assert!(bad.starts_with("Brotli decompression failed: ") || bad == "Brotli finalize failed");
}
