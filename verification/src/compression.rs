//! Triple-layer compression: LZ4 → Zstandard → Brotli.
pub mod layers;
pub mod triple;
pub mod types;
pub mod files;
pub mod browser;
