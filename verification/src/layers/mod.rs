//! Per-handler request layers: names, deadlines, rate limits, timeouts, CORS and more.

pub mod ext;
pub mod timeout;
pub mod util;
pub mod rate;
pub mod cors;
pub mod buffer;
pub mod cb;
