//! The client of the perpetual futures market.

pub mod market;

use crate::api::client::hmac::MAX_HMAC_INPUT;
use crate::api::client::text::utf8;
use crate::api::client::{BinanceClient, BinanceClientView, BuilderView};
use crate::api::{BinanceBuilder, FromBinanceClient};
use vstd::prelude::*;
use vstd::string::*;

verus! {

pub const PERPETUAL_FUTURES_API: &'static str = "https://fapi.binance.com";

pub const PERPETUAL_FUTURES_TESTNET_API: &'static str = "https://testnet.binancefuture.com";

/// The client of the perpetual futures market.
pub struct BinancePerpFutures {
    pub(crate) client: BinanceClient,
}

impl View for BinancePerpFutures {
    type V = BinanceClientView;

    closed spec fn view(&self) -> BinanceClientView {
        self.client@
    }
}

impl BinancePerpFutures {
    pub fn builder() -> (builder: BinanceBuilder<BinancePerpFutures>)
        ensures
            builder@ == BuilderView::empty(),
    {
        BinanceBuilder::new()
    }

    /// A client of the perpetual futures market without credentials.
    pub fn new() -> (futures: BinancePerpFutures)
        ensures
            futures@ == BinanceClientView::anonymous(PERPETUAL_FUTURES_API@),
    {
        BinancePerpFutures { client: BinanceClient::new(PERPETUAL_FUTURES_API.to_owned()) }
    }

    /// A client of the perpetual futures market with credentials.
    pub fn signed(api_key: String, secret_key: String) -> (futures: BinancePerpFutures)
        requires
            utf8(secret_key@).len() <= MAX_HMAC_INPUT,
        ensures
            futures@ == BinanceClientView::with_credentials(
                PERPETUAL_FUTURES_API@,
                api_key@,
                secret_key@,
            ),
    {
        BinancePerpFutures {
            client: BinanceClient::signed(PERPETUAL_FUTURES_API.to_owned(), api_key, secret_key),
        }
    }

    /// A client of the test network of the perpetual futures market.
    pub fn testnet(api_key: String, secret_key: String) -> (futures: BinancePerpFutures)
        requires
            utf8(secret_key@).len() <= MAX_HMAC_INPUT,
        ensures
            futures@ == BinanceClientView::with_credentials(
                PERPETUAL_FUTURES_TESTNET_API@,
                api_key@,
                secret_key@,
            ),
    {
        BinancePerpFutures {
            client: BinanceClient::signed(
                PERPETUAL_FUTURES_TESTNET_API.to_owned(),
                api_key,
                secret_key,
            ),
        }
    }

    /// A client without credentials for another host.
    pub fn with_host(host: String) -> (futures: BinancePerpFutures)
        ensures
            futures@ == BinanceClientView::anonymous(host@),
    {
        BinancePerpFutures { client: BinanceClient::new(host) }
    }

    /// A client with credentials for another host.
    pub fn signed_with_host(host: String, api_key: String, secret_key: String) -> (futures:
        BinancePerpFutures)
        requires
            utf8(secret_key@).len() <= MAX_HMAC_INPUT,
        ensures
            futures@ == BinanceClientView::with_credentials(host@, api_key@, secret_key@),
    {
        BinancePerpFutures { client: BinanceClient::signed(host, api_key, secret_key) }
    }
}

impl BinancePerpFutures {
    /// The request authority that the client works with.
    pub fn authority(&self) -> (client: &BinanceClient)
        ensures
            client@ == self@,
    {
        &self.client
    }
}

impl FromBinanceClient for BinancePerpFutures {
    const HOST: &'static str = PERPETUAL_FUTURES_API;

    open spec fn client(&self) -> BinanceClientView {
        self@
    }

    fn from_client(client: BinanceClient) -> (made: BinancePerpFutures) {
        BinancePerpFutures { client }
    }
}

} // verus!
