//! The web server: HTTP responses, request routing, rate limiting, search and static files.
pub mod http;
pub mod query;
pub mod routes;
pub mod limits;
pub mod search;
pub mod statics;
pub mod embedded;
pub mod login;
pub mod server;
pub mod jwt;
