//! What a caller of the market data endpoints needs besides the client.

pub use crate::types::futures_fapi::limits::DepthLimit;
