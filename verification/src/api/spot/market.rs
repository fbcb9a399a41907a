//! Market data of the spot market.

pub mod endpoints;
pub mod prelude;

use crate::api::client::number::int_text;
use crate::api::client::url::{optional_str, optional_u16, optional_u64, pair_text, Url};
use crate::api::client::{room_for, Method, Request};
use crate::api::spot::BinanceSpot;
use crate::types::spot::limits::{DepthLimit, KLinesInterval};
use vstd::prelude::*;

verus! {

impl BinanceSpot {
    /// Tests connectivity.
    ///
    /// Weight(IP): 1
    pub fn ping(&self) -> (req: Request)
        ensures
            req@ == self@.plain(Method::Get, self@.start(endpoints::API_V3_PING@)),
    {
        self.client.get(endpoints::API_V3_PING)
    }

    /// Tests connectivity and asks for the time of the server.
    ///
    /// Weight(IP): 1
    pub fn get_server_time(&self) -> (req: Request)
        ensures
            req@ == self@.plain(Method::Get, self@.start(endpoints::API_V3_TIME@)),
    {
        self.client.get(endpoints::API_V3_TIME)
    }

    /// Asks for the trading rules and the symbols of the exchange.
    ///
    /// Weight(IP): 10
    pub fn get_exchange_info(&self) -> (req: Request)
        ensures
            req@ == self@.plain(Method::Get, self@.start(endpoints::API_V3_EXCHANGE_INFO@)),
    {
        self.client.get(endpoints::API_V3_EXCHANGE_INFO)
    }

    /// Asks for an order book.
    pub fn get_depth(&self, symbol: &str, limit: DepthLimit) -> (req: Request)
        ensures
            req@ == self@.plain(
                Method::Get,
                self@.start(endpoints::API_V3_DEPTH@).with_param(
                    pair_text("symbol"@, symbol@),
                ).with_param(
                    pair_text("limit"@, int_text(limit.value() as int)),
                ),
            ),
    {
        let add_params = |url: Url| -> (out: Url)
            requires
                url.wf(),
            ensures
                out.wf(),
                out@ == url@.with_param(
                    pair_text("symbol"@, symbol@),
                ).with_param(
                    pair_text("limit"@, int_text(limit.value() as int)),
                ),
            {
                let mut url = url;
                url.add_param_str("symbol", symbol);
                url.add_param_integer("limit", u16::from(limit) as i128);
                url
            };
        self.client.get_with_query(endpoints::API_V3_DEPTH, 40, add_params)
    }

    /// Asks for the latest trades.
    ///
    /// Weight(IP): 1
    pub fn get_recent_trades(&self, symbol: &str, limit: Option<u16>) -> (req: Request)
        ensures
            req@ == self@.plain(
                Method::Get,
                self@.start(endpoints::API_V3_TRADES@).with_param(
                    pair_text("symbol"@, symbol@),
                ).with_optional(
                    optional_u16("limit"@, limit),
                ),
            ),
    {
        let add_params = |url: Url| -> (out: Url)
            requires
                url.wf(),
            ensures
                out.wf(),
                out@ == url@.with_param(
                    pair_text("symbol"@, symbol@),
                ).with_optional(
                    optional_u16("limit"@, limit),
                ),
            {
                let mut url = url;
                url.add_param_str("symbol", symbol);
                if let Some(val) = limit {
                    url.add_param_integer("limit", val as i128);
                }
                url
            };
        self.client.get_with_query(endpoints::API_V3_TRADES, 40, add_params)
    }

    /// Asks for older trades. The request carries the API key.
    ///
    /// Weight(IP): 5
    pub fn get_historical_trades(
        &self,
        symbol: &str,
        from_id: Option<u64>,
        limit: Option<u16>,
    ) -> (req: Request)
        ensures
            req@ == self@.keyed(
                Method::Get,
                self@.start(endpoints::API_V3_HISTORICAL_TRADES@).with_param(
                    pair_text("symbol"@, symbol@),
                ).with_optional(
                    optional_u64("fromId"@, from_id),
                ).with_optional(
                    optional_u16("limit"@, limit),
                ),
            ),
    {
        let add_params = |url: Url| -> (out: Url)
            requires
                url.wf(),
            ensures
                out.wf(),
                out@ == url@.with_param(
                    pair_text("symbol"@, symbol@),
                ).with_optional(
                    optional_u64("fromId"@, from_id),
                ).with_optional(
                    optional_u16("limit"@, limit),
                ),
            {
                let mut url = url;
                url.add_param_str("symbol", symbol);
                if let Some(val) = from_id {
                    url.add_param_integer("fromId", val as i128);
                }
                if let Some(val) = limit {
                    url.add_param_integer("limit", val as i128);
                }
                url
            };
        self.client.get_with_query_api_key(endpoints::API_V3_HISTORICAL_TRADES, 70, add_params)
    }

    /// Asks for aggregate trades: trades that fill at the same time, from
    /// the same order and at the same price, with their quantities added up.
    ///
    /// Weight(IP): 1
    pub fn get_aggregate_trades(&self, symbol: &str,
        from_id: Option<u64>,
        start_time: Option<u64>,
        end_time: Option<u64>,
        limit: Option<u16>) -> (req: Request)
        ensures
            req@ == self@.plain(
                Method::Get,
                self@.start(endpoints::API_V3_AGG_TRADES@).with_param(
                    pair_text("symbol"@, symbol@),
                ).with_optional(
                    optional_u64("fromId"@, from_id),
                ).with_optional(
                    optional_u64("startTime"@, start_time),
                ).with_optional(
                    optional_u64("endTime"@, end_time),
                ).with_optional(
                    optional_u16("limit"@, limit),
                ),
            ),
    {
        let add_params = |url: Url| -> (out: Url)
            requires
                url.wf(),
            ensures
                out.wf(),
                out@ == url@.with_param(
                    pair_text("symbol"@, symbol@),
                ).with_optional(
                    optional_u64("fromId"@, from_id),
                ).with_optional(
                    optional_u64("startTime"@, start_time),
                ).with_optional(
                    optional_u64("endTime"@, end_time),
                ).with_optional(
                    optional_u16("limit"@, limit),
                ),
            {
                let mut url = url;
                url.add_param_str("symbol", symbol);
                if let Some(val) = from_id {
                    url.add_param_integer("fromId", val as i128);
                }
                if let Some(val) = start_time {
                    url.add_param_integer("startTime", val as i128);
                }
                if let Some(val) = end_time {
                    url.add_param_integer("endTime", val as i128);
                }
                if let Some(val) = limit {
                    url.add_param_integer("limit", val as i128);
                }
                url
            };
        self.client.get_with_query(endpoints::API_V3_AGG_TRADES, 128, add_params)
    }

    /// Asks for the candlesticks of a symbol. Without a start and an end,
    /// the most recent ones are returned.
    ///
    /// Weight(IP): 1
    pub fn get_klines(&self, symbol: &str,
        interval: KLinesInterval,
        start_time: Option<u64>,
        end_time: Option<u64>,
        limit: Option<u16>) -> (req: Request)
        ensures
            req@ == self@.plain(
                Method::Get,
                self@.start(endpoints::API_V3_KLINES@).with_param(
                    pair_text("symbol"@, symbol@),
                ).with_param(
                    pair_text("interval"@, interval.name()),
                ).with_optional(
                    optional_u64("startTime"@, start_time),
                ).with_optional(
                    optional_u64("endTime"@, end_time),
                ).with_optional(
                    optional_u16("limit"@, limit),
                ),
            ),
    {
        let add_params = |url: Url| -> (out: Url)
            requires
                url.wf(),
            ensures
                out.wf(),
                out@ == url@.with_param(
                    pair_text("symbol"@, symbol@),
                ).with_param(
                    pair_text("interval"@, interval.name()),
                ).with_optional(
                    optional_u64("startTime"@, start_time),
                ).with_optional(
                    optional_u64("endTime"@, end_time),
                ).with_optional(
                    optional_u16("limit"@, limit),
                ),
            {
                let mut url = url;
                url.add_param_str("symbol", symbol);
                url.add_param_str("interval", interval.as_str());
                if let Some(val) = start_time {
                    url.add_param_integer("startTime", val as i128);
                }
                if let Some(val) = end_time {
                    url.add_param_integer("endTime", val as i128);
                }
                if let Some(val) = limit {
                    url.add_param_integer("limit", val as i128);
                }
                url
            };
        self.client.get_with_query(endpoints::API_V3_KLINES, 128, add_params)
    }

    /// Asks for the candlesticks of a symbol as they are drawn in charts.
    ///
    /// Weight: 1
    pub fn get_klines_ui(&self, symbol: &str,
        interval: KLinesInterval,
        start_time: Option<u64>,
        end_time: Option<u64>,
        limit: Option<u16>) -> (req: Request)
        ensures
            req@ == self@.plain(
                Method::Get,
                self@.start(endpoints::API_V3_UI_KLINES@).with_param(
                    pair_text("symbol"@, symbol@),
                ).with_param(
                    pair_text("interval"@, interval.name()),
                ).with_optional(
                    optional_u64("startTime"@, start_time),
                ).with_optional(
                    optional_u64("endTime"@, end_time),
                ).with_optional(
                    optional_u16("limit"@, limit),
                ),
            ),
    {
        let add_params = |url: Url| -> (out: Url)
            requires
                url.wf(),
            ensures
                out.wf(),
                out@ == url@.with_param(
                    pair_text("symbol"@, symbol@),
                ).with_param(
                    pair_text("interval"@, interval.name()),
                ).with_optional(
                    optional_u64("startTime"@, start_time),
                ).with_optional(
                    optional_u64("endTime"@, end_time),
                ).with_optional(
                    optional_u16("limit"@, limit),
                ),
            {
                let mut url = url;
                url.add_param_str("symbol", symbol);
                url.add_param_str("interval", interval.as_str());
                if let Some(val) = start_time {
                    url.add_param_integer("startTime", val as i128);
                }
                if let Some(val) = end_time {
                    url.add_param_integer("endTime", val as i128);
                }
                if let Some(val) = limit {
                    url.add_param_integer("limit", val as i128);
                }
                url
            };
        self.client.get_with_query(endpoints::API_V3_UI_KLINES, 128, add_params)
    }

    /// Asks for the current average price of a symbol.
    ///
    /// Weight(IP): 1
    pub fn get_average_price(&self, symbol: &str) -> (req: Request)
        ensures
            req@ == self@.plain(
                Method::Get,
                self@.start(endpoints::API_V3_AVG_PRICE@).with_param(
                    pair_text("symbol"@, symbol@),
                ),
            ),
    {
        let add_params = |url: Url| -> (out: Url)
            requires
                url.wf(),
            ensures
                out.wf(),
                out@ == url@.with_param(
                    pair_text("symbol"@, symbol@),
                ),
            {
                let mut url = url;
                url.add_param_str("symbol", symbol);
                url
            };
        self.client.get_with_query(endpoints::API_V3_AVG_PRICE, 32, add_params)
    }

    /// Asks for the price change of a symbol over the last 24 hours, in full.
    pub fn get_24h_ticker_full(&self, symbol: &str) -> (req: Request)
        ensures
            req@ == self@.plain(
                Method::Get,
                self@.start(endpoints::API_V3_TICKER_24H@).with_param(
                    pair_text("symbol"@, symbol@),
                ).with_param(
                    pair_text("type"@, "FULL"@),
                ),
            ),
    {
        let add_params = |url: Url| -> (out: Url)
            requires
                url.wf(),
            ensures
                out.wf(),
                out@ == url@.with_param(
                    pair_text("symbol"@, symbol@),
                ).with_param(
                    pair_text("type"@, "FULL"@),
                ),
            {
                let mut url = url;
                url.add_param_str("symbol", symbol);
                url.add_param_str("type", "FULL");
                url
            };
        self.client.get_with_query(endpoints::API_V3_TICKER_24H, 40, add_params)
    }

    /// Asks for the price change of a symbol over the last 24 hours, in short.
    pub fn get_24h_ticker_mini(&self, symbol: &str) -> (req: Request)
        ensures
            req@ == self@.plain(
                Method::Get,
                self@.start(endpoints::API_V3_TICKER_24H@).with_param(
                    pair_text("symbol"@, symbol@),
                ).with_param(
                    pair_text("type"@, "MINI"@),
                ),
            ),
    {
        let add_params = |url: Url| -> (out: Url)
            requires
                url.wf(),
            ensures
                out.wf(),
                out@ == url@.with_param(
                    pair_text("symbol"@, symbol@),
                ).with_param(
                    pair_text("type"@, "MINI"@),
                ),
            {
                let mut url = url;
                url.add_param_str("symbol", symbol);
                url.add_param_str("type", "MINI");
                url
            };
        self.client.get_with_query(endpoints::API_V3_TICKER_24H, 40, add_params)
    }

    /// Asks for the price changes over the last 24 hours, in full, of the
    /// symbols given as a list, or of all symbols.
    pub fn get_24h_tickers_full(&self, symbols: Option<&str>) -> (req: Request)
        ensures
            req@ == self@.plain(
                Method::Get,
                self@.start(endpoints::API_V3_TICKER_24H@).with_param(
                    pair_text("type"@, "FULL"@),
                ).with_optional(
                    optional_str("symbols"@, symbols),
                ),
            ),
    {
        let capacity = match symbols {
            Some(val) => room_for(val, 32),
            None => 10,
        };
        let add_params = |url: Url| -> (out: Url)
            requires
                url.wf(),
            ensures
                out.wf(),
                out@ == url@.with_param(pair_text("type"@, "FULL"@)).with_optional(
                    optional_str("symbols"@, symbols),
                ),
            {
                let mut url = url;
                url.add_param_str("type", "FULL");
                if let Some(val) = symbols {
                    url.add_param_str("symbols", val);
                }
                url
            };
        self.client.get_with_query(endpoints::API_V3_TICKER_24H, capacity, add_params)
    }

    /// Asks for the price changes over the last 24 hours, in short, of the
    /// symbols given as a list, or of all symbols.
    pub fn get_24h_tickers_mini(&self, symbols: Option<&str>) -> (req: Request)
        ensures
            req@ == self@.plain(
                Method::Get,
                self@.start(endpoints::API_V3_TICKER_24H@).with_param(
                    pair_text("type"@, "MINI"@),
                ).with_optional(
                    optional_str("symbols"@, symbols),
                ),
            ),
    {
        let capacity = match symbols {
            Some(val) => room_for(val, 32),
            None => 10,
        };
        let add_params = |url: Url| -> (out: Url)
            requires
                url.wf(),
            ensures
                out.wf(),
                out@ == url@.with_param(pair_text("type"@, "MINI"@)).with_optional(
                    optional_str("symbols"@, symbols),
                ),
            {
                let mut url = url;
                url.add_param_str("type", "MINI");
                if let Some(val) = symbols {
                    url.add_param_str("symbols", val);
                }
                url
            };
        self.client.get_with_query(endpoints::API_V3_TICKER_24H, capacity, add_params)
    }

    /// Asks for the latest price of a symbol.
    pub fn get_latest_price(&self, symbol: &str) -> (req: Request)
        ensures
            req@ == self@.plain(
                Method::Get,
                self@.start(endpoints::API_V3_TICKER_PRICE@).with_param(
                    pair_text("symbol"@, symbol@),
                ),
            ),
    {
        let add_params = |url: Url| -> (out: Url)
            requires
                url.wf(),
            ensures
                out.wf(),
                out@ == url@.with_param(
                    pair_text("symbol"@, symbol@),
                ),
            {
                let mut url = url;
                url.add_param_str("symbol", symbol);
                url
            };
        self.client.get_with_query(endpoints::API_V3_TICKER_PRICE, 32, add_params)
    }

    /// Asks for the latest prices of the symbols given as a list, or of all
    /// symbols.
    pub fn get_latest_prices(&self, symbols: Option<&str>) -> (req: Request)
        ensures
            req@ == self@.plain(
                Method::Get,
                self@.start(endpoints::API_V3_TICKER_PRICE@).with_optional(
                    optional_str("symbols"@, symbols),
                ),
            ),
    {
        match symbols {
            Some(val) => {
                let add_params = |url: Url| -> (out: Url)
                    requires
                        url.wf(),
                    ensures
                        out.wf(),
                        out@ == url@.with_param(pair_text("symbols"@, val@)),
                    {
                        let mut url = url;
                        url.add_param_str("symbols", val);
                        url
                    };
                self.client.get_with_query(
                    endpoints::API_V3_TICKER_PRICE,
                    room_for(val, 16),
                    add_params,
                )
            },
            None => self.client.get(endpoints::API_V3_TICKER_PRICE),
        }
    }

    /// Asks for the best price and quantity on the order book of a symbol.
    pub fn get_book_ticker(&self, symbol: &str) -> (req: Request)
        ensures
            req@ == self@.plain(
                Method::Get,
                self@.start(endpoints::API_V3_TICKER_BOOK_TICKER@).with_param(
                    pair_text("symbol"@, symbol@),
                ),
            ),
    {
        let add_params = |url: Url| -> (out: Url)
            requires
                url.wf(),
            ensures
                out.wf(),
                out@ == url@.with_param(
                    pair_text("symbol"@, symbol@),
                ),
            {
                let mut url = url;
                url.add_param_str("symbol", symbol);
                url
            };
        self.client.get_with_query(endpoints::API_V3_TICKER_BOOK_TICKER, 32, add_params)
    }

    /// Asks for the best prices and quantities on the order books of the
    /// symbols given as a list, or of all symbols.
    pub fn get_book_tickers(&self, symbols: Option<&str>) -> (req: Request)
        ensures
            req@ == self@.plain(
                Method::Get,
                self@.start(endpoints::API_V3_TICKER_BOOK_TICKER@).with_optional(
                    optional_str("symbols"@, symbols),
                ),
            ),
    {
        match symbols {
            Some(val) => {
                let add_params = |url: Url| -> (out: Url)
                    requires
                        url.wf(),
                    ensures
                        out.wf(),
                        out@ == url@.with_param(pair_text("symbols"@, val@)),
                    {
                        let mut url = url;
                        url.add_param_str("symbols", val);
                        url
                    };
                self.client.get_with_query(
                    endpoints::API_V3_TICKER_BOOK_TICKER,
                    room_for(val, 16),
                    add_params,
                )
            },
            None => self.client.get(endpoints::API_V3_TICKER_BOOK_TICKER),
        }
    }
}

} // verus!
