//! Limits of this market: those that the futures markets share.

pub use crate::types::futures_common::limits::{DepthLimit, DepthUpdateSpeedMs, RequestWeight};
