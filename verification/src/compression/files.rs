//! Compressing and decompressing stored files: which layers are accepted, which files are
//! left alone, the statistics reported, and the layers recorded on a file.
use vstd::prelude::*;

use crate::clock::{instant_now, millis_since};
use crate::compression::layers::{
    brotli_algorithm_name, brotli_stream, brotli_unstream, lz4_block, lz4_unblock, zstd_algorithm_name, zstd_frame,
    zstd_unframe, BrotliLayer, Lz4Layer, ZstdLayer, BROTLI_BUFFER_SIZE, BROTLI_LGWIN,
};
use crate::compression::triple::{detail_is, incompressible, triple_packed, triple_unpack, TripleCompressor};
use crate::compression::types::{CompressionStats, LayerDetail};
use crate::digest::{blake3_hex, blake3_hex_digest};
use crate::membership::{add_unique, id_views, with_id};
use crate::text::{chars_of, decimal, eq_lit, push_decimal, to_uppercase, uppercase};

verus! {

/// The layer names a file may be compressed with.
pub open spec fn valid_layer(layer: Seq<char>) -> bool {
    layer == "lz4"@ || layer == "zstd"@ || layer == "brotli"@ || layer == "all"@
}

/// Accept a layer name for compressing a file, or refuse it.
pub fn check_compression_layer(layer: &str) -> (r: Result<(), String>)
    ensures
        r is Ok <==> valid_layer(layer@),
        r matches Err(m) ==> m@ == "Invalid compression layer: "@ + layer@ + ". Must be one of: lz4, zstd, brotli, all"@,
{
    let c = chars_of(layer);
    if eq_lit(&c, "lz4") || eq_lit(&c, "zstd") || eq_lit(&c, "brotli") || eq_lit(&c, "all") {
        Ok(())
    } else {
        let mut m = String::from_str("Invalid compression layer: ");
        m.append(layer);
        m.append(". Must be one of: lz4, zstd, brotli, all");
        Err(m)
    }
}

/// Content types whose data is already compressed.
pub open spec fn incompressible_mime(m: Seq<char>) -> bool {
    ||| m == "image/jpeg"@ || m == "image/png"@ || m == "image/webp"@ || m == "image/gif"@
    ||| m == "image/heic"@ || m == "image/avif"@ || m == "video/mp4"@ || m == "video/webm"@
    ||| m == "video/quicktime"@ || m == "video/x-matroska"@ || m == "audio/mpeg"@ || m == "audio/aac"@
    ||| m == "audio/ogg"@ || m == "audio/flac"@ || m == "application/zip"@
    ||| m == "application/x-7z-compressed"@ || m == "application/x-rar-compressed"@
    ||| m == "application/gzip"@ || m == "application/zstd"@
}

/// Whether a content type is one whose data is already compressed.
pub fn is_incompressible_mime(mime: &str) -> (r: bool)
    ensures
        r == incompressible_mime(mime@),
{
    let c = chars_of(mime);
    eq_lit(&c, "image/jpeg") || eq_lit(&c, "image/png") || eq_lit(&c, "image/webp") || eq_lit(&c, "image/gif")
        || eq_lit(&c, "image/heic") || eq_lit(&c, "image/avif") || eq_lit(&c, "video/mp4") || eq_lit(
        &c,
        "video/webm",
    ) || eq_lit(&c, "video/quicktime") || eq_lit(&c, "video/x-matroska") || eq_lit(&c, "audio/mpeg")
        || eq_lit(&c, "audio/aac") || eq_lit(&c, "audio/ogg") || eq_lit(&c, "audio/flac") || eq_lit(
        &c,
        "application/zip",
    ) || eq_lit(&c, "application/x-7z-compressed") || eq_lit(&c, "application/x-rar-compressed") || eq_lit(
        &c,
        "application/gzip",
    ) || eq_lit(&c, "application/zstd")
}

/// The statistics reported for a file left uncompressed because its data already is.
pub fn skipped_stats(size: u64, hash: Option<String>) -> (r: CompressionStats)
    ensures
        r.original_size == size,
        r.compressed_size == size,
        r.layer@ == "skipped (already compressed)"@,
        r.layer_details@.len() == 0,
        r.blake3_hash@ == match hash {
            Some(h) => h@,
            None => Seq::<char>::empty(),
        },
        r.duration_ms == 0,
{
    let blake3_hash = match hash {
        Some(h) => h,
        None => String::new(),
    };
    CompressionStats {
        original_size: size,
        compressed_size: size,
        layer: String::from_str("skipped (already compressed)"),
        layer_details: Vec::new(),
        blake3_hash,
        duration_ms: 0,
    }
}

/// The output of one named layer (`lz4`, `zstd` or `brotli`) on the data, at the compressor's levels.
pub open spec fn layer_output(c: TripleCompressor, layer: Seq<char>, data: Seq<u8>) -> Seq<u8> {
    if layer == "lz4"@ {
        lz4_block(data)
    } else if layer == "zstd"@ {
        zstd_frame(data, c.zstd_level())
    } else {
        brotli_stream(data, BROTLI_BUFFER_SIZE as int, c.brotli_level(), BROTLI_LGWIN as int)
    }
}

/// The detail record of one named layer on the data: its name, algorithm, color and the
/// sizes before and after.
pub open spec fn layer_detail_ok(d: LayerDetail, c: TripleCompressor, layer: Seq<char>, data: Seq<u8>) -> bool {
    let n = data.len() as int;
    let m = layer_output(c, layer, data).len() as int;
    if layer == "lz4"@ {
        detail_is(d, Lz4Layer::NAME@, Lz4Layer::ALGORITHM@, n, m, Lz4Layer::COLOR@)
    } else if layer == "zstd"@ {
        detail_is(d, ZstdLayer::NAME@, zstd_algorithm_name(c.zstd_level()), n, m, ZstdLayer::COLOR@)
    } else {
        detail_is(d, BrotliLayer::NAME@, brotli_algorithm_name(c.brotli_level() as nat), n, m, BrotliLayer::COLOR@)
    }
}

/// The detail records of the triple pipeline on the data: the LZ4 probe alone when the data
/// is incompressible, else one record for each of the three layers in turn.
pub open spec fn triple_details_ok(ds: Seq<LayerDetail>, c: TripleCompressor, data: Seq<u8>) -> bool {
    let lz = lz4_block(data);
    if incompressible(data.len(), lz.len()) {
        &&& ds.len() == 1
        &&& detail_is(ds[0], "LZ4 probe"@, Lz4Layer::ALGORITHM@, data.len() as int, lz.len() as int, "#6B7280"@)
    } else {
        let z = zstd_frame(lz, c.zstd_level());
        let out = triple_packed(data, c.zstd_level(), c.brotli_level());
        &&& ds.len() == 3
        &&& detail_is(ds[0], Lz4Layer::NAME@, Lz4Layer::ALGORITHM@, data.len() as int, lz.len() as int, Lz4Layer::COLOR@)
        &&& detail_is(ds[1], ZstdLayer::NAME@, zstd_algorithm_name(c.zstd_level()), lz.len() as int, z.len() as int,
            ZstdLayer::COLOR@)
        &&& detail_is(ds[2], BrotliLayer::NAME@, brotli_algorithm_name(c.brotli_level() as nat), z.len() as int,
            out.len() as int, BrotliLayer::COLOR@)
    }
}

/// Compress a file's contents with one layer, or with all three (`all`), and report the
/// statistics: sizes, the layers' details, the BLAKE3 hash of the contents and the time taken.
/// A failure of the compressor is reported with its message.
pub fn compress_contents(c: &TripleCompressor, data: &[u8], layer: &str) -> (r: Result<CompressionStats, String>)
    ensures
        layer@ == "all"@ ==> match r {
            Ok(s) => {
                &&& s.layer@ == "triple"@
                &&& s.original_size == data@.len()
                &&& s.blake3_hash@ == blake3_hex(data@)
                &&& s.compressed_size == if incompressible(data@.len(), lz4_block(data@).len()) {
                    data@.len() as int
                } else {
                    triple_packed(data@, c.zstd_level(), c.brotli_level()).len() as int
                }
                &&& triple_details_ok(s.layer_details@, *c, data@)
            },
            Err(m) => !incompressible(data@.len(), lz4_block(data@).len()) && (m@
                == "Triple compression failed: Zstandard compression failed"@ || m@
                == "Triple compression failed: Brotli compression failed"@),
        },
        layer@ != "all"@ ==> match r {
            Ok(s) => {
                &&& s.layer@ == layer@
                &&& s.layer_details@.len() == 1
                &&& s.original_size == data@.len()
                &&& s.compressed_size == layer_output(*c, layer@, data@).len()
                &&& layer_detail_ok(s.layer_details@[0], *c, layer@, data@)
                &&& s.blake3_hash@ == blake3_hex(data@)
            },
            Err(m) => "Compression failed: "@.is_prefix_of(m@),
        },
        r is Ok <==> (layer@ == "all"@ || layer@ == "lz4"@ || layer@ == "zstd"@ || layer@ == "brotli"@),
{
    let start = instant_now();
    proof {
        reveal_strlit("all");
        reveal_strlit("lz4");
        reveal_strlit("Triple compression failed: ");
        reveal_strlit("Zstandard compression failed");
        reveal_strlit("Brotli compression failed");
        reveal_strlit("Triple compression failed: Zstandard compression failed");
        reveal_strlit("Triple compression failed: Brotli compression failed");
        assert("all"@.len() == 3 && "lz4"@.len() == 3);
        assert("lz4"@ != "all"@) by {
            assert("lz4"@[0] == 'l');
            assert("all"@[0] == 'a');
        }
        assert("Triple compression failed: "@ + "Zstandard compression failed"@
            =~= "Triple compression failed: Zstandard compression failed"@);
        assert("Triple compression failed: "@ + "Brotli compression failed"@
            =~= "Triple compression failed: Brotli compression failed"@);
    }
    let c_all = chars_of(layer);
    if eq_lit(&c_all, "all") {
        match c.compress_triple(data) {
            Ok((_compressed, stats)) => {
                let duration_ms = millis_since(&start);
                Ok(CompressionStats {
                    original_size: stats.original_size,
                    compressed_size: stats.compressed_size,
                    layer: String::from_str("triple"),
                    layer_details: stats.layer_details,
                    blake3_hash: stats.blake3_hash,
                    duration_ms,
                })
            },
            Err(e) => {
                let mut m = String::from_str("Triple compression failed: ");
                m.append(e.message().as_str());
                Err(m)
            },
        }
    } else {
        match c.compress_data(data, layer) {
            Ok((_compressed, detail)) => {
                let original_size = detail.input_size;
                let compressed_size = detail.output_size;
                let mut details: Vec<LayerDetail> = Vec::new();
                details.push(detail);
                let duration_ms = millis_since(&start);
                Ok(CompressionStats {
                    original_size,
                    compressed_size,
                    layer: String::from_str(layer),
                    layer_details: details,
                    blake3_hash: blake3_hex_digest(data),
                    duration_ms,
                })
            },
            Err(e) => {
                let mut m = String::from_str("Compression failed: ");
                m.append(e.message().as_str());
                Err(m)
            },
        }
    }
}

/// Record a compression layer on a file: added unless already recorded.
pub fn record_layer(layers: &mut Vec<String>, layer: &str)
    ensures
        id_views(final(layers)@) == with_id(id_views(old(layers)@), layer@),
{
    add_unique(layers, layer);
}

/// Undo the recorded layers one at a time, in the order they are recorded: a layer whose
/// decoder fails, or whose name is unknown, leaves the data as it was.
pub open spec fn peel_layers(data: Seq<u8>, layers: Seq<Seq<char>>) -> Seq<u8>
    decreases layers.len(),
{
    if layers.len() == 0 {
        data
    } else {
        let prev = peel_layers(data, layers.drop_last());
        let l = layers.last();
        let step = if l == "brotli"@ {
            brotli_unstream(prev)
        } else if l == "zstd"@ {
            zstd_unframe(prev)
        } else if l == "lz4"@ {
            lz4_unblock(prev)
        } else {
            None
        };
        match step {
            Some(d) => d,
            None => prev,
        }
    }
}

/// The original contents of compressed data: the triple pipeline undone when it applies,
/// else the recorded layers undone one by one.
pub open spec fn restored_contents(data: Seq<u8>, layers: Seq<Seq<char>>) -> Seq<u8> {
    match triple_unpack(data) {
        Some(p) => p,
        None => peel_layers(data, layers),
    }
}

/// The size and BLAKE3 hash of the original contents of compressed data.
pub fn decompress_contents(c: &TripleCompressor, data: &[u8], layers: &Vec<String>) -> (r: (u64, String))
    ensures
        r.0 == restored_contents(data@, id_views(layers@)).len(),
        r.1@ == blake3_hex(restored_contents(data@, id_views(layers@))),
{
    match c.decompress_triple(data) {
        Ok((decompressed, _duration)) => (decompressed.len() as u64, blake3_hex_digest(decompressed.as_slice())),
        Err(_) => {
            let mut result_data = vstd::slice::slice_to_vec(data);
            let ghost ls = id_views(layers@);
            assert(ls.take(0) =~= Seq::<Seq<char>>::empty());
            for i in 0..layers.len()
                invariant
                    ls == id_views(layers@),
                    result_data@ == peel_layers(data@, ls.take(i as int)),
            {
                let ghost prev = result_data@;
                assert(ls.take(i + 1).drop_last() =~= ls.take(i as int));
                assert(ls.take(i + 1).last() == layers@[i as int]@);
                let name = chars_of(layers[i].as_str());
                let step = if eq_lit(&name, "brotli") {
                    c.decompress_brotli(result_data.as_slice())
                } else if eq_lit(&name, "zstd") {
                    c.decompress_zstd(result_data.as_slice())
                } else if eq_lit(&name, "lz4") {
                    c.decompress_lz4(result_data.as_slice())
                } else {
                    Err(crate::compression::types::CompressionError::UnknownLayer(String::new()))
                };
                match step {
                    Ok(d) => {
                        result_data = d;
                    },
                    Err(_) => {},
                }
            }
            assert(ls.take(ls.len() as int) =~= ls);
            (result_data.len() as u64, blake3_hex_digest(result_data.as_slice()))
        },
    }
}

/// The display color of a layer name.
pub open spec fn layer_color(l: Seq<char>) -> Seq<char> {
    if l == "lz4"@ {
        "#00D4FF"@
    } else if l == "zstd"@ {
        "#00FF41"@
    } else if l == "brotli"@ {
        "#FFB800"@
    } else {
        "#6B7280"@
    }
}

fn layer_color_of(l: &str) -> (r: &'static str)
    ensures
        r@ == layer_color(l@),
{
    let c = chars_of(l);
    if eq_lit(&c, "lz4") {
        "#00D4FF"
    } else if eq_lit(&c, "zstd") {
        "#00FF41"
    } else if eq_lit(&c, "brotli") {
        "#FFB800"
    } else {
        "#6B7280"
    }
}

/// The details reported for the layers removed by decompression: one per layer, named
/// `Removed: ` and the layer in upper case, from the compressed to the original size.
pub fn removed_layer_details(layers: &Vec<String>, compressed_size: u64, original_size: u64) -> (r: Vec<LayerDetail>)
    ensures
        r@.len() == layers@.len(),
        forall|i: int|
            0 <= i < r@.len() ==> {
                &&& (#[trigger] r@[i]).name@ == "Removed: "@ + uppercase(layers@[i]@)
                &&& r@[i].algorithm@ == layers@[i]@
                &&& r@[i].input_size == compressed_size
                &&& r@[i].output_size == original_size
                &&& r@[i].color@ == layer_color(layers@[i]@)
            },
{
    let mut out: Vec<LayerDetail> = Vec::new();
    for i in 0..layers.len()
        invariant
            out@.len() == i,
            forall|j: int|
                0 <= j < i ==> {
                    &&& (#[trigger] out@[j]).name@ == "Removed: "@ + uppercase(layers@[j]@)
                    &&& out@[j].algorithm@ == layers@[j]@
                    &&& out@[j].input_size == compressed_size
                    &&& out@[j].output_size == original_size
                    &&& out@[j].color@ == layer_color(layers@[j]@)
                },
    {
        let l = layers[i].as_str();
        let mut name = String::from_str("Removed: ");
        name.append(to_uppercase(l).as_str());
        out.push(LayerDetail {
            name,
            algorithm: layers[i].clone(),
            input_size: compressed_size,
            output_size: original_size,
            color: String::from_str(layer_color_of(l)),
        });
    }
    out
}

/// The statistics of a decompression: from the compressed size back to the original size,
/// with the removed layers and the hash of the original contents.
pub fn decompressed_stats(
    layers: &Vec<String>,
    compressed_size: u64,
    original_size: u64,
    hash: String,
    duration_ms: u64,
) -> (r: CompressionStats)
    ensures
        r.original_size == compressed_size,
        r.compressed_size == original_size,
        r.layer@ == "decompressed"@,
        r.layer_details@.len() == layers@.len(),
        r.blake3_hash@ == hash@,
        r.duration_ms == duration_ms,
{
    CompressionStats {
        original_size: compressed_size,
        compressed_size: original_size,
        layer: String::from_str("decompressed"),
        layer_details: removed_layer_details(layers, compressed_size, original_size),
        blake3_hash: hash,
        duration_ms,
    }
}

/// Refuse to decompress a file that records no compression layer.
pub fn check_has_layers(file_id: &str, layers: &Vec<String>) -> (r: Result<(), String>)
    ensures
        r is Ok <==> layers@.len() > 0,
        r matches Err(m) ==> m@ == "File "@ + file_id@ + " has no compression layers to remove"@,
{
    if layers.len() == 0 {
        let mut m = String::from_str("File ");
        m.append(file_id);
        m.append(" has no compression layers to remove");
        Err(m)
    } else {
        Ok(())
    }
}

/// The summary name of the recorded layers: `none`, `triple` for three, else the last one.
pub open spec fn layers_label(layers: Seq<Seq<char>>) -> Seq<char> {
    if layers.len() == 0 {
        "none"@
    } else if layers.len() == 3 {
        "triple"@
    } else {
        layers.last()
    }
}

/// The display name of the `i`-th recorded layer (counting from 1).
pub open spec fn stored_layer_name(i: nat, l: Seq<char>) -> Seq<char> {
    "Layer "@ + decimal(i) + ": "@ + if l == "lz4"@ {
        "LZ4"@
    } else if l == "zstd"@ {
        "Zstandard"@
    } else if l == "brotli"@ {
        "Brotli"@
    } else {
        l
    }
}

/// The statistics shown for a stored file from its recorded layers, size and hash.
pub fn stored_compression_stats(layers: &Vec<String>, size: u64, hash: Option<String>) -> (r: CompressionStats)
    ensures
        r.original_size == size,
        r.compressed_size == size,
        r.layer@ == layers_label(id_views(layers@)),
        r.layer_details@.len() == layers@.len(),
        forall|i: int|
            0 <= i < r.layer_details@.len() ==> {
                &&& (#[trigger] r.layer_details@[i]).name@ == stored_layer_name((i + 1) as nat, layers@[i]@)
                &&& r.layer_details@[i].algorithm@ == layers@[i]@
                &&& r.layer_details@[i].input_size == size
                &&& r.layer_details@[i].output_size == size
                &&& r.layer_details@[i].color@ == layer_color(layers@[i]@)
            },
        r.blake3_hash@ == match hash {
            Some(h) => h@,
            None => Seq::<char>::empty(),
        },
        r.duration_ms == 0,
{
    let layer = if layers.len() == 0 {
        String::from_str("none")
    } else if layers.len() == 3 {
        String::from_str("triple")
    } else {
        layers[layers.len() - 1].clone()
    };
    let mut details: Vec<LayerDetail> = Vec::new();
    for i in 0..layers.len()
        invariant
            details@.len() == i,
            forall|j: int|
                0 <= j < i ==> {
                    &&& (#[trigger] details@[j]).name@ == stored_layer_name((j + 1) as nat, layers@[j]@)
                    &&& details@[j].algorithm@ == layers@[j]@
                    &&& details@[j].input_size == size
                    &&& details@[j].output_size == size
                    &&& details@[j].color@ == layer_color(layers@[j]@)
                },
    {
        let l = layers[i].as_str();
        let c = chars_of(l);
        let mut name = String::from_str("Layer ");
        push_decimal(&mut name, (i + 1) as u64);
        name.append(": ");
        if eq_lit(&c, "lz4") {
            name.append("LZ4");
        } else if eq_lit(&c, "zstd") {
            name.append("Zstandard");
        } else if eq_lit(&c, "brotli") {
            name.append("Brotli");
        } else {
            name.append(l);
        }
        details.push(LayerDetail {
            name,
            algorithm: layers[i].clone(),
            input_size: size,
            output_size: size,
            color: String::from_str(layer_color_of(l)),
        });
    }
    let blake3_hash = match hash {
        Some(h) => h,
        None => String::new(),
    };
    CompressionStats { original_size: size, compressed_size: size, layer, layer_details: details, blake3_hash, duration_ms: 0 }
}

} // verus!
