//! What the first client asks about the exchange as a whole.

use super::Binancex;
use crate::api::client::url::UrlView;
use crate::api::client::{Method, Request, RequestView};
use vstd::prelude::*;

verus! {

impl Binancex {
    /// Asks for the trading rules and the symbols of the exchange.
    pub fn get_exchange_info(&self) -> (req: Request)
        ensures
            req@ == (RequestView {
                method: Method::Get,
                url: (UrlView { base: self@.host + "/api/v3/exchangeInfo"@, query: None }).text(),
                api_key: None,
            }),
    {
        self.client.get("/api/v3/exchangeInfo")
    }
}

} // verus!
