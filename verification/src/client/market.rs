//! What the first client asks about a market.

use super::Binancex;
use crate::api::client::number::int_text;
use crate::api::client::url::{pair_text, Url, UrlView};
use crate::api::client::{Method, Request, RequestView};
use crate::schemes::market::DepthLimit;
use vstd::prelude::*;

verus! {

impl Binancex {
    /// Asks for an order book.
    pub fn get_depth(&self, symbol: &str, limit: DepthLimit) -> (req: Request)
        ensures
            req@ == (RequestView {
                method: Method::Get,
                url: (UrlView {
                    base: self@.host + "/api/v3/depth"@,
                    query: None,
                }).with_param(pair_text("symbol"@, symbol@)).with_param(
                    pair_text("limit"@, int_text(limit.value() as int)),
                ).text(),
                api_key: None,
            }),
    {
        let add_params = |url: Url| -> (out: Url)
            requires
                url.wf(),
            ensures
                out.wf(),
                out@ == url@.with_param(pair_text("symbol"@, symbol@)).with_param(
                    pair_text("limit"@, int_text(limit.value() as int)),
                ),
            {
                let mut url = url;
                url.add_param_str("symbol", symbol);
                url.add_param_integer("limit", limit.to_u16() as i128);
                url
            };
        self.client.get_with_query("/api/v3/depth", 40, add_params)
    }
}

} // verus!
