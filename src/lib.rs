//! Native messaging host for the Buku bookmark manager: the length-prefixed
//! frame codec, the request router and the byte-budgeted pagination of
//! bookmark listings.
pub mod cli;
pub mod config;
pub mod database;
pub mod json;
pub mod location;
pub mod manifest;
pub mod matching;
pub mod native_messaging;
pub mod pagination;
pub mod request;
pub mod response;
pub mod server;
pub mod types;
