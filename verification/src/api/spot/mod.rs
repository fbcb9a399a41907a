//! The client of the spot market.

pub mod market;
pub mod trade;

use crate::api::client::hmac::MAX_HMAC_INPUT;
use crate::api::client::text::utf8;
use crate::api::client::{BinanceClient, BinanceClientView, BuilderView};
use crate::api::{BinanceBuilder, FromBinanceClient};
use vstd::prelude::*;
use vstd::string::*;

verus! {

pub const SPOT_API: &'static str = "https://api.binance.com";

pub const SPOT_TESTNET_API: &'static str = "https://testnet.binance.vision";

/// The client of the spot market.
pub struct BinanceSpot {
    pub(crate) client: BinanceClient,
}

impl View for BinanceSpot {
    type V = BinanceClientView;

    closed spec fn view(&self) -> BinanceClientView {
        self.client@
    }
}

impl BinanceSpot {
    pub fn builder() -> (builder: BinanceBuilder<BinanceSpot>)
        ensures
            builder@ == BuilderView::empty(),
    {
        BinanceBuilder::new()
    }

    /// A client of the spot market without credentials.
    pub fn new() -> (spot: BinanceSpot)
        ensures
            spot@ == BinanceClientView::anonymous(SPOT_API@),
    {
        BinanceSpot { client: BinanceClient::new(SPOT_API.to_owned()) }
    }

    /// A client of the spot market with credentials.
    pub fn signed(api_key: String, secret_key: String) -> (spot: BinanceSpot)
        requires
            utf8(secret_key@).len() <= MAX_HMAC_INPUT,
        ensures
            spot@ == BinanceClientView::with_credentials(SPOT_API@, api_key@, secret_key@),
    {
        BinanceSpot { client: BinanceClient::signed(SPOT_API.to_owned(), api_key, secret_key) }
    }

    /// A client of the spot test network.
    pub fn testnet(api_key: String, secret_key: String) -> (spot: BinanceSpot)
        requires
            utf8(secret_key@).len() <= MAX_HMAC_INPUT,
        ensures
            spot@ == BinanceClientView::with_credentials(SPOT_TESTNET_API@, api_key@, secret_key@),
    {
        BinanceSpot {
            client: BinanceClient::signed(SPOT_TESTNET_API.to_owned(), api_key, secret_key),
        }
    }

    /// A client without credentials for another host.
    pub fn with_host(host: String) -> (spot: BinanceSpot)
        ensures
            spot@ == BinanceClientView::anonymous(host@),
    {
        BinanceSpot { client: BinanceClient::new(host) }
    }

    /// A client with credentials for another host.
    pub fn signed_with_host(host: String, api_key: String, secret_key: String) -> (spot:
        BinanceSpot)
        requires
            utf8(secret_key@).len() <= MAX_HMAC_INPUT,
        ensures
            spot@ == BinanceClientView::with_credentials(host@, api_key@, secret_key@),
    {
        BinanceSpot { client: BinanceClient::signed(host, api_key, secret_key) }
    }
}

impl BinanceSpot {
    /// The request authority that the client works with.
    pub fn authority(&self) -> (client: &BinanceClient)
        ensures
            client@ == self@,
    {
        &self.client
    }
}

impl FromBinanceClient for BinanceSpot {
    const HOST: &'static str = SPOT_API;

    open spec fn client(&self) -> BinanceClientView {
        self@
    }

    fn from_client(client: BinanceClient) -> (made: BinanceSpot) {
        BinanceSpot { client }
    }
}

} // verus!
