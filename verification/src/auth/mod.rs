//! Authentication and authorization.

pub mod errors;
pub mod token;
pub mod user;
pub mod extractor;
pub mod config;
pub mod provider;
pub mod layer;
pub mod jwt;
