//! A client for the REST interface of the Binance exchange: it builds the
//! query of a request in the caller's order, signs it, and resolves the
//! response into a payload, the exchange's error, or a failure.

pub mod api;
pub mod client;
pub mod error;
pub mod schemes;
pub mod types;
pub mod utils;

pub use api::{
    delivery_futures, perpetual_futures, spot, BinanceBuilder, BinanceDeliveryFutures, BinanceError,
    BinancePerpFutures, BinanceSpot,
};
