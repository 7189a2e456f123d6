use vstd::prelude::*;

pub mod access;
pub mod accounts;
pub mod audit;
pub mod clock;
pub mod code;
pub mod compression;
pub mod crypto;
pub mod digest;
pub mod faces;
pub mod import;
pub mod keystore;
pub mod membership;
pub mod schema;
pub mod search;
pub mod sharing;
pub mod sync;
pub mod text;
pub mod versions;
pub mod web;

verus! {

} // verus!
