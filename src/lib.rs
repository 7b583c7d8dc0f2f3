//! Claim-based bearer-token authentication for a small web API, with a
//! pluggable, pooled user-data backend.

pub mod access;
pub mod claim;
pub mod codec;
pub mod controllers;
pub mod data_source;
pub mod endpoint;
pub mod extension;
pub mod memory;
pub mod models;
pub mod text;
pub mod token;
pub mod user;
