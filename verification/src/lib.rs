//! Token-gated file exchange: the storage controller without its I/O.
//!
//! Tokens name a slot on disk. A share slot takes files once, before its
//! expiry, and serves them afterwards. An upload slot takes files until its
//! expiry or until its quota is used up. Every function here works on plain
//! values; reading and writing the disk is left to the caller, who is told
//! what to do next and reports what happened.

pub mod app_config;
pub mod bytes;
pub mod config;
pub mod content_type;
pub mod controller;
pub mod error;
pub mod ingest;
pub mod listing;
pub mod path;
pub mod redeem;
pub mod sink;
pub mod text;
pub mod timestamp;
pub mod token;
