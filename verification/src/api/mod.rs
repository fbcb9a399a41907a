//! The clients of the exchange's markets and what they are built from.

pub mod client;
pub mod delivery_futures;
pub mod perpetual_futures;
pub mod spot;

use self::client::hmac::MAX_HMAC_INPUT;
use self::client::text::utf8;
use self::client::{
    text_of, BinanceClient, BinanceClientBuilder, BinanceClientView, BuilderView, LocalAddress,
};
use std::marker::PhantomData;
pub use self::client::error::BinanceError;
pub use self::delivery_futures::BinanceDeliveryFutures;
pub use self::perpetual_futures::BinancePerpFutures;
pub use self::spot::BinanceSpot;
use vstd::prelude::*;

verus! {

/// A client of one market: it is made from a request authority and has a
/// host of its own.
pub trait FromBinanceClient: Sized {
    /// The host of the market.
    const HOST: &'static str;

    /// The request authority that the client works with.
    spec fn client(&self) -> BinanceClientView;

    fn from_client(client: BinanceClient) -> (made: Self)
        ensures
            made.client() == client@,
    ;
}

/// What the client of a market is built from. What is not set takes its
/// default.
pub struct BinanceBuilder<C: FromBinanceClient> {
    api_key: Option<String>,
    secret_key: Option<String>,
    recv_window: Option<u16>,
    http_connect_timeout_ms: Option<u64>,
    http_request_timeout_ms: Option<u64>,
    tcp_nodelay: Option<bool>,
    local_addr: Option<LocalAddress>,
    phantom: PhantomData<C>,
}

impl<C: FromBinanceClient> View for BinanceBuilder<C> {
    type V = BuilderView;

    closed spec fn view(&self) -> BuilderView {
        BuilderView {
            api_key: text_of(self.api_key),
            secret_key: text_of(self.secret_key),
            recv_window: self.recv_window,
            http_connect_timeout_ms: self.http_connect_timeout_ms,
            http_request_timeout_ms: self.http_request_timeout_ms,
            tcp_nodelay: self.tcp_nodelay,
            local_addr: self.local_addr,
        }
    }
}

impl<C: FromBinanceClient> Default for BinanceBuilder<C> {
    fn default() -> (builder: Self)
        ensures
            builder@ == BuilderView::empty(),
    {
        BinanceBuilder {
            api_key: None,
            secret_key: None,
            recv_window: None,
            http_connect_timeout_ms: None,
            http_request_timeout_ms: None,
            tcp_nodelay: None,
            local_addr: None,
            phantom: PhantomData,
        }
    }
}

impl<C: FromBinanceClient> BinanceBuilder<C> {
    pub fn new() -> (builder: Self)
        ensures
            builder@ == BuilderView::empty(),
    {
        BinanceBuilder::default()
    }

    /// Sets the credentials.
    pub fn signed(self, api_key: String, secret_key: String) -> (builder: Self)
        ensures
            builder@ == (BuilderView {
                api_key: Some(api_key@),
                secret_key: Some(secret_key@),
                ..self@
            }),
    {
        let mut builder = self;
        builder.api_key = Some(api_key);
        builder.secret_key = Some(secret_key);
        builder
    }

    /// Sets the receive window, in milliseconds.
    pub fn recv_window_ms(self, recv_window: u16) -> (builder: Self)
        ensures
            builder@ == (BuilderView { recv_window: Some(recv_window), ..self@ }),
    {
        let mut builder = self;
        builder.recv_window = Some(recv_window);
        builder
    }

    /// Sets the time allowed for connecting, in milliseconds.
    pub fn http_connect_timeout_ms(self, timeout: u64) -> (builder: Self)
        ensures
            builder@ == (BuilderView { http_connect_timeout_ms: Some(timeout), ..self@ }),
    {
        let mut builder = self;
        builder.http_connect_timeout_ms = Some(timeout);
        builder
    }

    /// Sets the time allowed for a whole request, in milliseconds.
    pub fn http_request_timeout_ms(self, timeout: u64) -> (builder: Self)
        ensures
            builder@ == (BuilderView { http_request_timeout_ms: Some(timeout), ..self@ }),
    {
        let mut builder = self;
        builder.http_request_timeout_ms = Some(timeout);
        builder
    }

    /// Sets whether small packets are sent without delay.
    pub fn tcp_nodelay(self, enabled: bool) -> (builder: Self)
        ensures
            builder@ == (BuilderView { tcp_nodelay: Some(enabled), ..self@ }),
    {
        let mut builder = self;
        builder.tcp_nodelay = Some(enabled);
        builder
    }

    /// Sets the local address that connections are made from.
    pub fn bind_local_address(self, addr: LocalAddress) -> (builder: Self)
        ensures
            builder@ == (BuilderView { local_addr: Some(addr), ..self@ }),
    {
        let mut builder = self;
        builder.local_addr = Some(addr);
        builder
    }

    fn to_client_builder(self, host: String) -> (builder: BinanceClientBuilder)
        ensures
            builder.host == host,
            builder@ == self@,
    {
        BinanceClientBuilder {
            host,
            api_key: self.api_key,
            secret_key: self.secret_key,
            recv_window: self.recv_window,
            http_connect_timeout_ms: self.http_connect_timeout_ms,
            http_request_timeout_ms: self.http_request_timeout_ms,
            tcp_nodelay: self.tcp_nodelay,
            local_addr: self.local_addr,
        }
    }

    /// Builds the client of the market, for the market's own host.
    pub fn build(self) -> (made: C)
        requires
            utf8(self@.secret()).len() <= MAX_HMAC_INPUT,
        ensures
            made.client() == self@.client(C::HOST@),
    {
        let client = self.to_client_builder(C::HOST.to_owned());
        C::from_client(client.build())
    }
}

} // verus!
