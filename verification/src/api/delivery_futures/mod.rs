//! The client of the delivery futures market.

pub mod market;

use crate::api::client::hmac::MAX_HMAC_INPUT;
use crate::api::client::text::utf8;
use crate::api::client::{BinanceClient, BinanceClientView, BuilderView};
use crate::api::{BinanceBuilder, FromBinanceClient};
use vstd::prelude::*;
use vstd::string::*;

verus! {

pub const DELIVERY_FUTURES_API: &'static str = "https://dapi.binance.com";

/// The client of the delivery futures market.
pub struct BinanceDeliveryFutures {
    pub(crate) client: BinanceClient,
}

impl View for BinanceDeliveryFutures {
    type V = BinanceClientView;

    closed spec fn view(&self) -> BinanceClientView {
        self.client@
    }
}

impl BinanceDeliveryFutures {
    pub fn builder() -> (builder: BinanceBuilder<BinanceDeliveryFutures>)
        ensures
            builder@ == BuilderView::empty(),
    {
        BinanceBuilder::new()
    }

    /// A client of the delivery futures market without credentials.
    pub fn new() -> (futures: BinanceDeliveryFutures)
        ensures
            futures@ == BinanceClientView::anonymous(DELIVERY_FUTURES_API@),
    {
        BinanceDeliveryFutures { client: BinanceClient::new(DELIVERY_FUTURES_API.to_owned()) }
    }

    /// A client of the delivery futures market with credentials.
    pub fn signed(api_key: String, secret_key: String) -> (futures: BinanceDeliveryFutures)
        requires
            utf8(secret_key@).len() <= MAX_HMAC_INPUT,
        ensures
            futures@ == BinanceClientView::with_credentials(
                DELIVERY_FUTURES_API@,
                api_key@,
                secret_key@,
            ),
    {
        BinanceDeliveryFutures {
            client: BinanceClient::signed(DELIVERY_FUTURES_API.to_owned(), api_key, secret_key),
        }
    }

    /// A client without credentials for another host.
    pub fn with_host(host: String) -> (futures: BinanceDeliveryFutures)
        ensures
            futures@ == BinanceClientView::anonymous(host@),
    {
        BinanceDeliveryFutures { client: BinanceClient::new(host) }
    }

    /// A client with credentials for another host.
    pub fn signed_with_host(host: String, api_key: String, secret_key: String) -> (futures:
        BinanceDeliveryFutures)
        requires
            utf8(secret_key@).len() <= MAX_HMAC_INPUT,
        ensures
            futures@ == BinanceClientView::with_credentials(host@, api_key@, secret_key@),
    {
        BinanceDeliveryFutures { client: BinanceClient::signed(host, api_key, secret_key) }
    }
}

impl BinanceDeliveryFutures {
    /// The request authority that the client works with.
    pub fn authority(&self) -> (client: &BinanceClient)
        ensures
            client@ == self@,
    {
        &self.client
    }
}

impl FromBinanceClient for BinanceDeliveryFutures {
    const HOST: &'static str = DELIVERY_FUTURES_API;

    open spec fn client(&self) -> BinanceClientView {
        self@
    }

    fn from_client(client: BinanceClient) -> (made: BinanceDeliveryFutures) {
        BinanceDeliveryFutures { client }
    }
}

} // verus!
