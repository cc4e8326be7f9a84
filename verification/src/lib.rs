//! Pithos: the storage and transfer core of a small file-sharing service.

pub mod config;
pub mod custom_headers;
pub mod decimal;
pub mod download;
pub mod error;
pub mod errors;
pub mod file_extensions;
pub mod framing;
pub mod header;
pub mod ident;
pub mod model;
pub mod service;
