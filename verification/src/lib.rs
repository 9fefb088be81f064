//! Verified core of a web-service framework: authentication, request
//! limits and timeouts, CORS, probes and configuration logic.

pub mod text;
pub mod duration;
pub mod headers;
pub mod auth;
pub mod table;
pub mod layers;
pub mod probes;
pub mod kafka;
pub mod builder;
pub mod errors;
pub mod config;
pub mod runtime;
pub mod otel;
pub mod notify;
pub mod crypto;
pub mod behavior;
pub mod http_client;
pub mod metrics;
pub mod apidoc;
pub mod logging;
pub mod handle;
