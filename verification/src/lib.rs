//! Caching and dispatch core of a DID resolution gateway.

pub mod cache;
pub mod cache_laws;
pub mod clock;
pub mod config;
pub mod error;
pub mod init;
pub mod json;
pub mod lru_model;
pub mod resolve;
pub mod resolve_laws;
pub mod response;
