//! Market data of the perpetual futures market.

pub mod endpoints;
pub mod prelude;

use crate::api::client::number::int_text;
use crate::api::client::url::{pair_text, Url};
use crate::api::client::{Method, Request};
use crate::api::perpetual_futures::BinancePerpFutures;
use crate::types::futures_fapi::limits::DepthLimit;
use vstd::prelude::*;

verus! {

impl BinancePerpFutures {
    /// Tests connectivity.
    pub fn ping(&self) -> (req: Request)
        ensures
            req@ == self@.plain(Method::Get, self@.start(endpoints::FAPI_V1_PING@)),
    {
        self.client.get(endpoints::FAPI_V1_PING)
    }

    /// Tests connectivity and asks for the time of the server.
    pub fn get_server_time(&self) -> (req: Request)
        ensures
            req@ == self@.plain(Method::Get, self@.start(endpoints::FAPI_V1_TIME@)),
    {
        self.client.get(endpoints::FAPI_V1_TIME)
    }

    /// Asks for the trading rules and the symbols of the exchange.
    pub fn get_exchange_info(&self) -> (req: Request)
        ensures
            req@ == self@.plain(Method::Get, self@.start(endpoints::FAPI_V1_EXCHANGE_INFO@)),
    {
        self.client.get(endpoints::FAPI_V1_EXCHANGE_INFO)
    }

    /// Asks for an order book.
    pub fn get_depth(&self, symbol: &str, limit: DepthLimit) -> (req: Request)
        ensures
            req@ == self@.plain(
                Method::Get,
                self@.start(endpoints::FAPI_V1_DEPTH@).with_param(
                    pair_text("symbol"@, symbol@),
                ).with_param(
                    pair_text("limit"@, int_text(limit.value() as int)),
                ),
            ),
    {
        let add_params = |url: Url| -> (out: Url)
            requires
                url.wf(),
            ensures
                out.wf(),
                out@ == url@.with_param(
                    pair_text("symbol"@, symbol@),
                ).with_param(
                    pair_text("limit"@, int_text(limit.value() as int)),
                ),
            {
                let mut url = url;
                url.add_param_str("symbol", symbol);
                url.add_param_integer("limit", u16::from(limit) as i128);
                url
            };
        self.client.get_with_query(endpoints::FAPI_V1_DEPTH, 34, add_params)
    }
}

} // verus!
