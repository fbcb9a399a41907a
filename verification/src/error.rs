//! The plain envelope of the first client: a payload or the exchange's error.

use crate::api::client::error::{BodyParseError, TransportError};
use vstd::prelude::*;

verus! {

/// The error object of the exchange: a code and a message.
#[derive(Clone, Debug)]
pub struct BinanceResponseError {
    pub code: i64,
    pub msg: String,
}

/// A decoded body: the payload that was asked for, or an error object.
#[derive(Clone, Debug)]
pub enum BinanceResponse<T> {
    Success(T),
    Error(BinanceResponseError),
}

/// The failure of a request of the first client.
#[derive(Debug)]
pub enum BinancexError {
    /// The exchange answered with an error object.
    Binance(BinanceResponseError),
    /// The body could not be decoded.
    Parse(BodyParseError),
    /// The transport failed.
    Reqwest(TransportError),
}

impl From<BinanceResponseError> for BinancexError {
    fn from(err: BinanceResponseError) -> (e: BinancexError) {
        BinancexError::Binance(err)
    }
}

impl vstd::std_specs::convert::FromSpecImpl<BinanceResponseError> for BinancexError {
    open spec fn obeys_from_spec() -> bool {
        true
    }

    open spec fn from_spec(err: BinanceResponseError) -> BinancexError {
        BinancexError::Binance(err)
    }
}

impl From<BodyParseError> for BinancexError {
    fn from(err: BodyParseError) -> (e: BinancexError) {
        BinancexError::Parse(err)
    }
}

impl vstd::std_specs::convert::FromSpecImpl<BodyParseError> for BinancexError {
    open spec fn obeys_from_spec() -> bool {
        true
    }

    open spec fn from_spec(err: BodyParseError) -> BinancexError {
        BinancexError::Parse(err)
    }
}

impl From<TransportError> for BinancexError {
    fn from(err: TransportError) -> (e: BinancexError) {
        BinancexError::Reqwest(err)
    }
}

impl vstd::std_specs::convert::FromSpecImpl<TransportError> for BinancexError {
    open spec fn obeys_from_spec() -> bool {
        true
    }

    open spec fn from_spec(err: TransportError) -> BinancexError {
        BinancexError::Reqwest(err)
    }
}

impl<T> BinanceResponse<T> {
    /// A payload is the result, an error object the error.
    pub fn to_result(self) -> (r: Result<T, BinanceResponseError>)
        ensures
            r == match self {
                BinanceResponse::Success(result) => Ok::<T, BinanceResponseError>(result),
                BinanceResponse::Error(e) => Err::<T, BinanceResponseError>(e),
            },
    {
        match self {
            BinanceResponse::Success(result) => Ok(result),
            BinanceResponse::Error(e) => Err(e),
        }
    }
}

} // verus!
