//! Importing files from disk and from URLs: which entries a directory walk imports
//! and counts, the size limits on hashing and indexing contents, and the names,
//! types and parents that imported records get.
pub mod detect;
pub mod walk;
