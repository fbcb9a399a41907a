//! What can go wrong with one request, local failures and the exchange's own
//! refusals alike.

use super::query_string::QuerySerializationError;
use super::response::Response;
use vstd::prelude::*;

verus! {

/// How the value of a rate-limit header failed to be an unsigned 16-bit
/// number.
#[derive(Clone, Copy, Debug, PartialEq, Eq, Structural)]
pub enum HeaderParseIntError {
    /// The value is empty.
    Empty,
    /// The value holds something that is no decimal digit, or only a sign.
    InvalidDigit,
    /// The digits stand for a number over 65535.
    PosOverflow,
}

/// The connection or the transfer failed before a whole response was there.
#[derive(Debug)]
pub struct TransportError {
    /// What the transport reported.
    pub message: String,
}

/// The body matched neither the shape of a success nor that of an error.
#[derive(Debug)]
pub struct BodyParseError {
    /// What the decoder reported.
    pub message: String,
}

/// The failure of a request.
#[derive(Debug)]
pub enum BinanceError<E> {
    /// The exchange answered with an error object: an outcome of the request,
    /// with status and rate-limit headers, not a fault of the client.
    Binance(Response<E>),
    /// A rate-limit header that is present holds no number.
    HeaderParseInt(HeaderParseIntError),
    /// The transport failed.
    HttpClient(TransportError),
    /// A structured parameter could not be encoded, before anything was sent.
    ParseQueryString(QuerySerializationError),
    /// The body could not be decoded.
    ParseJson(BodyParseError),
}

impl<E> From<Response<E>> for BinanceError<E> {
    fn from(err: Response<E>) -> (e: BinanceError<E>) {
        BinanceError::Binance(err)
    }
}

impl<E> vstd::std_specs::convert::FromSpecImpl<Response<E>> for BinanceError<E> {
    open spec fn obeys_from_spec() -> bool {
        true
    }

    open spec fn from_spec(err: Response<E>) -> BinanceError<E> {
        BinanceError::Binance(err)
    }
}

impl<E> From<HeaderParseIntError> for BinanceError<E> {
    fn from(err: HeaderParseIntError) -> (e: BinanceError<E>) {
        BinanceError::HeaderParseInt(err)
    }
}

impl<E> vstd::std_specs::convert::FromSpecImpl<HeaderParseIntError> for BinanceError<E> {
    open spec fn obeys_from_spec() -> bool {
        true
    }

    open spec fn from_spec(err: HeaderParseIntError) -> BinanceError<E> {
        BinanceError::HeaderParseInt(err)
    }
}

impl<E> From<TransportError> for BinanceError<E> {
    fn from(err: TransportError) -> (e: BinanceError<E>) {
        BinanceError::HttpClient(err)
    }
}

impl<E> vstd::std_specs::convert::FromSpecImpl<TransportError> for BinanceError<E> {
    open spec fn obeys_from_spec() -> bool {
        true
    }

    open spec fn from_spec(err: TransportError) -> BinanceError<E> {
        BinanceError::HttpClient(err)
    }
}

impl<E> From<QuerySerializationError> for BinanceError<E> {
    fn from(err: QuerySerializationError) -> (e: BinanceError<E>) {
        BinanceError::ParseQueryString(err)
    }
}

impl<E> vstd::std_specs::convert::FromSpecImpl<QuerySerializationError> for BinanceError<E> {
    open spec fn obeys_from_spec() -> bool {
        true
    }

    open spec fn from_spec(err: QuerySerializationError) -> BinanceError<E> {
        BinanceError::ParseQueryString(err)
    }
}

impl<E> From<BodyParseError> for BinanceError<E> {
    fn from(err: BodyParseError) -> (e: BinanceError<E>) {
        BinanceError::ParseJson(err)
    }
}

impl<E> vstd::std_specs::convert::FromSpecImpl<BodyParseError> for BinanceError<E> {
    open spec fn obeys_from_spec() -> bool {
        true
    }

    open spec fn from_spec(err: BodyParseError) -> BinanceError<E> {
        BinanceError::ParseJson(err)
    }
}

} // verus!
