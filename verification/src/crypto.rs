//! Post-quantum encryption engine, and the primitives offered to the browser build.
pub mod browser;
pub mod primitives;
pub mod pqc;
pub mod engine;
pub mod meta;
