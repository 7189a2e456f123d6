//! Grouping faces: disjoint sets of face indices, the binary hash codes that
//! pre-select candidate neighbours, and the merging of face groups.
pub mod groups;
pub mod hashing;
pub mod union_find;
