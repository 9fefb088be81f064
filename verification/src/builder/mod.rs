//! Building servers: listener options and protocol settings.

pub mod server;
pub mod app;
