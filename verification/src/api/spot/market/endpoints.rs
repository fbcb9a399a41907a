//! The paths of the market data endpoints.

use vstd::prelude::*;

verus! {

pub const API_V3_PING: &'static str = "/api/v3/ping";

pub const API_V3_TIME: &'static str = "/api/v3/time";

pub const API_V3_EXCHANGE_INFO: &'static str = "/api/v3/exchangeInfo";

pub const API_V3_DEPTH: &'static str = "/api/v3/depth";

pub const API_V3_TRADES: &'static str = "/api/v3/trades";

pub const API_V3_HISTORICAL_TRADES: &'static str = "/api/v3/historicalTrades";

pub const API_V3_AGG_TRADES: &'static str = "/api/v3/aggTrades";

pub const API_V3_KLINES: &'static str = "/api/v3/klines";

pub const API_V3_UI_KLINES: &'static str = "/api/v3/uiKlines";

pub const API_V3_AVG_PRICE: &'static str = "/api/v3/avgPrice";

pub const API_V3_TICKER_24H: &'static str = "/api/v3/ticker/24hr";

pub const API_V3_TICKER_PRICE: &'static str = "/api/v3/ticker/price";

pub const API_V3_TICKER_BOOK_TICKER: &'static str = "/api/v3/ticker/bookTicker";

} // verus!
