//! The first client: plain calls to one host, without credentials and
//! without rate-limit figures.

pub mod general;
pub mod market;

use crate::api::client::json::{field, get_field, FromJson, Json};
use crate::api::client::{BinanceClient, BinanceClientView, HttpSettings};
use crate::error::{BinanceResponse, BinanceResponseError, BinancexError};
use vstd::prelude::*;
use vstd::string::*;

verus! {

pub const API1_HOST: &'static str = "https://www.binance.com";

/// The time, in milliseconds, allowed for connecting unless another is set.
pub const HTTP_CONNECTION_TIMEOUT: u64 = 5000;

/// The time, in milliseconds, allowed for a whole request unless another is set.
pub const HTTP_REQUEST_TIMEOUT: u64 = 5000;

/// The first client.
pub struct Binancex {
    pub(crate) client: BinanceClient,
    settings: HttpSettings,
}

/// What a [`Binancex`] stands for: the host that it calls and the setup of
/// its transport.
pub struct BinancexView {
    pub host: Seq<char>,
    pub settings: HttpSettings,
}

impl View for Binancex {
    type V = BinancexView;

    closed spec fn view(&self) -> BinancexView {
        BinancexView { host: self.client@.host, settings: self.settings }
    }
}

/// What the first client is built from.
#[derive(Clone, Copy, Debug, PartialEq, Eq, Structural)]
pub struct BinancexBuilder {
    connect_timeout_ms: u64,
    request_timeout_ms: u64,
    tcp_nodelay: bool,
}

impl View for BinancexBuilder {
    type V = HttpSettings;

    closed spec fn view(&self) -> HttpSettings {
        HttpSettings {
            connect_timeout_ms: self.connect_timeout_ms,
            request_timeout_ms: self.request_timeout_ms,
            tcp_nodelay: self.tcp_nodelay,
            local_addr: None,
            json_content_type: false,
        }
    }
}

/// The setup of a first client that was given none: both timeouts at their
/// defaults, and small packets held back as the system likes.
pub open spec fn first_settings() -> HttpSettings {
    HttpSettings {
        connect_timeout_ms: HTTP_CONNECTION_TIMEOUT,
        request_timeout_ms: HTTP_REQUEST_TIMEOUT,
        tcp_nodelay: false,
        local_addr: None,
        json_content_type: false,
    }
}

impl Binancex {
    pub fn new() -> (client: Binancex)
        ensures
            client@ == (BinancexView { host: API1_HOST@, settings: first_settings() }),
    {
        BinancexBuilder::new().build()
    }

    pub fn builder() -> (builder: BinancexBuilder)
        ensures
            builder@ == first_settings(),
    {
        BinancexBuilder::new()
    }

    /// The setup of the transport.
    pub fn settings(&self) -> (settings: HttpSettings)
        ensures
            settings == self@.settings,
    {
        self.settings
    }

    /// What a body resolves to: the payload, the exchange's error, or the
    /// failure to find either in it.
    pub fn resolve<T: FromJson>(body: &[u8]) -> (r: Result<T, BinancexError>)
        ensures
            match crate::api::client::json::json_value(body@) {
                Some(json) => match BinanceResponse::<T>::decoded(json) {
                    Some(BinanceResponse::Success(payload)) => r == Ok::<T, BinancexError>(payload),
                    Some(BinanceResponse::Error(e)) => r == Err::<T, BinancexError>(
                        BinancexError::Binance(e),
                    ),
                    None => r is Err && r->Err_0 is Parse,
                },
                None => r is Err && r->Err_0 is Parse,
            },
    {
        let json = match crate::api::client::json::parse_json(body) {
            Ok(json) => json,
            Err(e) => {
                return Err(BinancexError::Parse(e));
            },
        };
        match BinanceResponse::<T>::from_json(&json) {
            Some(decoded) => match decoded.to_result() {
                Ok(payload) => Ok(payload),
                Err(e) => Err(BinancexError::Binance(e)),
            },
            None => Err(
                BinancexError::Parse(
                    crate::api::client::error::BodyParseError {
                        message: "data did not match any variant of untagged enum BinanceResponse".to_owned(),
                    },
                ),
            ),
        }
    }
}

impl BinancexBuilder {
    pub fn new() -> (builder: BinancexBuilder)
        ensures
            builder@ == first_settings(),
    {
        BinancexBuilder {
            connect_timeout_ms: HTTP_CONNECTION_TIMEOUT,
            request_timeout_ms: HTTP_REQUEST_TIMEOUT,
            tcp_nodelay: false,
        }
    }

    /// Sets the time allowed for connecting, in milliseconds.
    pub fn connect_timeout(self, timeout: u64) -> (builder: BinancexBuilder)
        ensures
            builder@ == (HttpSettings { connect_timeout_ms: timeout, ..self@ }),
    {
        let mut builder = self;
        builder.connect_timeout_ms = timeout;
        builder
    }

    /// Sets the time allowed for a whole request, in milliseconds.
    pub fn request_timeout(self, timeout: u64) -> (builder: BinancexBuilder)
        ensures
            builder@ == (HttpSettings { request_timeout_ms: timeout, ..self@ }),
    {
        let mut builder = self;
        builder.request_timeout_ms = timeout;
        builder
    }

    /// Sets whether small packets are sent without delay.
    pub fn tcp_nodelay(self, enabled: bool) -> (builder: BinancexBuilder)
        ensures
            builder@ == (HttpSettings { tcp_nodelay: enabled, ..self@ }),
    {
        let mut builder = self;
        builder.tcp_nodelay = enabled;
        builder
    }

    pub fn build(self) -> (client: Binancex)
        ensures
            client@ == (BinancexView { host: API1_HOST@, settings: self@ }),
    {
        let settings = HttpSettings {
            connect_timeout_ms: self.connect_timeout_ms,
            request_timeout_ms: self.request_timeout_ms,
            tcp_nodelay: self.tcp_nodelay,
            local_addr: None,
            json_content_type: false,
        };
        Binancex { client: BinanceClient::new(API1_HOST.to_owned()), settings }
    }
}

/// The error object decodes from an object with a `code` and a `msg`.
impl FromJson for BinanceResponseError {
    open spec fn decoded(json: Json) -> Option<BinanceResponseError> {
        let code = field::<i64>(json, "code"@);
        let msg = field::<String>(json, "msg"@);
        if code is Some && msg is Some {
            Some(BinanceResponseError { code: code->0, msg: msg->0 })
        } else {
            None
        }
    }

    fn from_json(json: &Json) -> (r: Option<BinanceResponseError>) {
        let code = get_field::<i64>(json, "code")?;
        let msg = get_field::<String>(json, "msg")?;
        Some(BinanceResponseError { code, msg })
    }
}

/// A body without a tag is a success where it matches the shape of the
/// payload, else an error where it matches the shape of the error object.
impl<T: FromJson> FromJson for BinanceResponse<T> {
    open spec fn decoded(json: Json) -> Option<BinanceResponse<T>> {
        match T::decoded(json) {
            Some(payload) => Some(BinanceResponse::Success(payload)),
            None => match BinanceResponseError::decoded(json) {
                Some(error) => Some(BinanceResponse::Error(error)),
                None => None,
            },
        }
    }

    fn from_json(json: &Json) -> (r: Option<BinanceResponse<T>>) {
        match T::from_json(json) {
            Some(payload) => Some(BinanceResponse::Success(payload)),
            None => match BinanceResponseError::from_json(json) {
                Some(error) => Some(BinanceResponse::Error(error)),
                None => None,
            },
        }
    }
}

} // verus!
