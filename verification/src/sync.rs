//! Syncing files to storage backends.
pub mod backends;
pub mod oauth;
pub mod reply;
pub mod requests;
