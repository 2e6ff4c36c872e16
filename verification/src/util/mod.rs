//! Shared helpers of the web layer.

pub mod cluster;
pub mod crypto;
pub mod email;
pub mod jwt;
pub mod loader;
pub mod media;
pub mod string_map;
pub mod text;
pub mod token;
pub mod validate;
pub mod cache;
