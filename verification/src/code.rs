//! Source code: languages by extension and symbols found in source files.
pub mod language;
pub mod symbols;
