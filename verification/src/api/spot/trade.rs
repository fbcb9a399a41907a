//! Trading on the spot market.

pub mod endpoints;
pub mod prelude;

use crate::api::client::query_string::QuerySerializationError;
use crate::api::client::url::{optional_string, optional_u16, optional_u64, pair_text, Url};
use crate::api::client::{Method, Request};
use crate::api::spot::BinanceSpot;
use crate::schemes::spot::trade::OrderIdOrClientOrderId;
use vstd::prelude::*;

verus! {

impl BinanceSpot {
    /// Tests the placing of an order: the exchange checks it and places
    /// nothing. The order is given as its encoded query
    /// text, or as the error of encoding it.
    pub fn test_new_order(&self, req: Result<String, QuerySerializationError>) -> (r: Result<
        Request,
        QuerySerializationError,
    >)
        ensures
            exists|timestamp: i64|
                self@.encoded_outcome(
                    Method::Post,
                    self@.start(endpoints::API_V3_ORDER_TEST@),
                    req,
                    timestamp,
                    r,
                ),
    {
        self.client.signed_with_data(Method::Post, endpoints::API_V3_ORDER_TEST, 128, req)
    }

    /// Places an order. The order is given as its encoded query
    /// text, or as the error of encoding it.
    pub fn new_order(&self, req: Result<String, QuerySerializationError>) -> (r: Result<
        Request,
        QuerySerializationError,
    >)
        ensures
            exists|timestamp: i64|
                self@.encoded_outcome(
                    Method::Post,
                    self@.start(endpoints::API_V3_ORDER@),
                    req,
                    timestamp,
                    r,
                ),
    {
        self.client.signed_with_data(Method::Post, endpoints::API_V3_ORDER, 128, req)
    }

    /// Cancels an order. The cancellation is given as its encoded query
    /// text, or as the error of encoding it.
    pub fn cancel_order(&self, req: Result<String, QuerySerializationError>) -> (r: Result<
        Request,
        QuerySerializationError,
    >)
        ensures
            exists|timestamp: i64|
                self@.encoded_outcome(
                    Method::Delete,
                    self@.start(endpoints::API_V3_ORDER@),
                    req,
                    timestamp,
                    r,
                ),
    {
        self.client.signed_with_data(Method::Delete, endpoints::API_V3_ORDER, 128, req)
    }

    /// Cancels all open orders on a symbol.
    pub fn cancel_all_orders(&self, symbol: &str) -> (r: Result<Request, QuerySerializationError>)
        ensures
            exists|timestamp: i64|
                self@.signed_request_outcome(
                    Method::Delete,
                    self@.start(endpoints::API_V3_OPEN_ORDERS@).with_param(
                        pair_text("symbol"@, symbol@),
                    ),
                    timestamp,
                    r,
                ),
    {
        let add_params = |url: Url| -> (out: Result<Url, QuerySerializationError>)
            requires
                url.wf(),
            ensures
                out is Ok,
                out->Ok_0.wf(),
                out->Ok_0@ == url@.with_param(
                    pair_text("symbol"@, symbol@),
                ),
            {
                let mut url = url;
                url.add_param_str("symbol", symbol);
                Ok(url)
            };
        self.client.delete_signed_with_query(endpoints::API_V3_OPEN_ORDERS, 32, add_params)
    }

    /// Asks for the state of an order.
    pub fn get_order_info(&self, symbol: &str,
        order_id: Option<u64>,
        orig_client_order_id: Option<String>) -> (r: Result<Request, QuerySerializationError>)
        ensures
            exists|timestamp: i64|
                self@.signed_request_outcome(
                    Method::Get,
                    self@.start(endpoints::API_V3_ORDER@).with_param(
                        pair_text("symbol"@, symbol@),
                    ).with_optional(
                        optional_u64("orderId"@, order_id),
                    ).with_optional(
                        optional_string("origClientOrderId"@, orig_client_order_id),
                    ),
                    timestamp,
                    r,
                ),
    {
        let add_params = |url: Url| -> (out: Result<Url, QuerySerializationError>)
            requires
                url.wf(),
            ensures
                out is Ok,
                out->Ok_0.wf(),
                out->Ok_0@ == url@.with_param(
                    pair_text("symbol"@, symbol@),
                ).with_optional(
                    optional_u64("orderId"@, order_id),
                ).with_optional(
                    optional_string("origClientOrderId"@, orig_client_order_id),
                ),
            {
                let mut url = url;
                url.add_param_str("symbol", symbol);
                if let Some(val) = order_id {
                    url.add_param_integer("orderId", val as i128);
                }
                if let Some(val) = &orig_client_order_id {
                    url.add_param_str("origClientOrderId", val.as_str());
                }
                Ok(url)
            };
        self.client.get_signed_with_query(endpoints::API_V3_ORDER, 128, add_params)
    }

    /// Cancels an order and places another in its stead. The request is given
    /// as its encoded query text, or as the error of encoding it.
    pub fn cancel_replace_order(&self, req: Result<String, QuerySerializationError>) -> (r: Result<
        Request,
        QuerySerializationError,
    >)
        ensures
            exists|timestamp: i64|
                self@.encoded_outcome(
                    Method::Post,
                    self@.start(endpoints::API_V3_ORDER_CANCEL_REPLACE@),
                    req,
                    timestamp,
                    r,
                ),
    {
        self.client.signed_with_data(Method::Post, endpoints::API_V3_ORDER_CANCEL_REPLACE, 128, req)
    }

    /// Asks for the open orders on a symbol.
    pub fn get_open_orders(&self, symbol: &str) -> (r: Result<Request, QuerySerializationError>)
        ensures
            exists|timestamp: i64|
                self@.signed_request_outcome(
                    Method::Get,
                    self@.start(endpoints::API_V3_OPEN_ORDERS@).with_param(
                        pair_text("symbol"@, symbol@),
                    ),
                    timestamp,
                    r,
                ),
    {
        let add_params = |url: Url| -> (out: Result<Url, QuerySerializationError>)
            requires
                url.wf(),
            ensures
                out is Ok,
                out->Ok_0.wf(),
                out->Ok_0@ == url@.with_param(
                    pair_text("symbol"@, symbol@),
                ),
            {
                let mut url = url;
                url.add_param_str("symbol", symbol);
                Ok(url)
            };
        self.client.get_signed_with_query(endpoints::API_V3_OPEN_ORDERS, 32, add_params)
    }

    /// Asks for the open orders on all symbols.
    pub fn get_all_open_orders(&self) -> (r: Result<Request, QuerySerializationError>)
        ensures
            exists|timestamp: i64|
                self@.signed_request_outcome(
                    Method::Get,
                    self@.start(endpoints::API_V3_OPEN_ORDERS@),
                    timestamp,
                    r,
                ),
    {
        self.client.get_signed(endpoints::API_V3_OPEN_ORDERS)
    }

    /// Places an order list. The list is given as its encoded query
    /// text, or as the error of encoding it.
    pub fn new_oco_order(&self, req: Result<String, QuerySerializationError>) -> (r: Result<
        Request,
        QuerySerializationError,
    >)
        ensures
            exists|timestamp: i64|
                self@.encoded_outcome(
                    Method::Post,
                    self@.start(endpoints::API_V3_ORDER_OCO@),
                    req,
                    timestamp,
                    r,
                ),
    {
        self.client.signed_with_data(Method::Post, endpoints::API_V3_ORDER_OCO, 256, req)
    }

    /// Cancels an order list.
    pub fn cancel_oco_order(&self, symbol: &str,
        order_list_id: Option<u64>,
        list_client_order_id: Option<String>,
        new_client_order_id: Option<String>) -> (r: Result<Request, QuerySerializationError>)
        ensures
            exists|timestamp: i64|
                self@.signed_request_outcome(
                    Method::Delete,
                    self@.start(endpoints::API_V3_ORDER_LIST@).with_param(
                        pair_text("symbol"@, symbol@),
                    ).with_optional(
                        optional_u64("orderListId"@, order_list_id),
                    ).with_optional(
                        optional_string("listClientOrderId"@, list_client_order_id),
                    ).with_optional(
                        optional_string("newClientOrderId"@, new_client_order_id),
                    ),
                    timestamp,
                    r,
                ),
    {
        let add_params = |url: Url| -> (out: Result<Url, QuerySerializationError>)
            requires
                url.wf(),
            ensures
                out is Ok,
                out->Ok_0.wf(),
                out->Ok_0@ == url@.with_param(
                    pair_text("symbol"@, symbol@),
                ).with_optional(
                    optional_u64("orderListId"@, order_list_id),
                ).with_optional(
                    optional_string("listClientOrderId"@, list_client_order_id),
                ).with_optional(
                    optional_string("newClientOrderId"@, new_client_order_id),
                ),
            {
                let mut url = url;
                url.add_param_str("symbol", symbol);
                if let Some(val) = order_list_id {
                    url.add_param_integer("orderListId", val as i128);
                }
                if let Some(val) = &list_client_order_id {
                    url.add_param_str("listClientOrderId", val.as_str());
                }
                if let Some(val) = &new_client_order_id {
                    url.add_param_str("newClientOrderId", val.as_str());
                }
                Ok(url)
            };
        self.client.delete_signed_with_query(endpoints::API_V3_ORDER_LIST, 256, add_params)
    }

    /// Asks for an order list by one of its two identifiers.
    pub fn get_oco_order(&self, id: &OrderIdOrClientOrderId) -> (r: Result<
        Request,
        QuerySerializationError,
    >)
        ensures
            exists|timestamp: i64|
                self@.signed_request_outcome(
                    Method::Get,
                    self@.start(endpoints::API_V3_ORDER_LIST@).with_param(id.param()),
                    timestamp,
                    r,
                ),
    {
        let add_params = |url: Url| -> (out: Result<Url, QuerySerializationError>)
            requires
                url.wf(),
            ensures
                out is Ok,
                out->Ok_0.wf(),
                out->Ok_0@ == url@.with_param(id.param()),
            {
                let mut url = url;
                match id {
                    OrderIdOrClientOrderId::OrderListId(id) => {
                        url.add_param_integer("orderListId", *id as i128);
                    },
                    OrderIdOrClientOrderId::OrigClientOrderId(id) => {
                        url.add_param_str("origClientOrderId", id.as_str());
                    },
                }
                Ok(url)
            };
        self.client.get_signed_with_query(endpoints::API_V3_ORDER_LIST, 256, add_params)
    }

    /// Asks for all order lists.
    pub fn get_all_oco_orders(&self, from_id: Option<u64>,
        start_time: Option<u64>,
        end_time: Option<u64>,
        limit: Option<u16>) -> (r: Result<Request, QuerySerializationError>)
        ensures
            exists|timestamp: i64|
                self@.signed_request_outcome(
                    Method::Get,
                    self@.start(endpoints::API_V3_ALL_ORDER_LIST@).with_optional(
                        optional_u64("fromId"@, from_id),
                    ).with_optional(
                        optional_u64("startTime"@, start_time),
                    ).with_optional(
                        optional_u64("endTime"@, end_time),
                    ).with_optional(
                        optional_u16("limit"@, limit),
                    ),
                    timestamp,
                    r,
                ),
    {
        let add_params = |url: Url| -> (out: Result<Url, QuerySerializationError>)
            requires
                url.wf(),
            ensures
                out is Ok,
                out->Ok_0.wf(),
                out->Ok_0@ == url@.with_optional(
                    optional_u64("fromId"@, from_id),
                ).with_optional(
                    optional_u64("startTime"@, start_time),
                ).with_optional(
                    optional_u64("endTime"@, end_time),
                ).with_optional(
                    optional_u16("limit"@, limit),
                ),
            {
                let mut url = url;
                if let Some(val) = from_id {
                    url.add_param_integer("fromId", val as i128);
                }
                if let Some(val) = start_time {
                    url.add_param_integer("startTime", val as i128);
                }
                if let Some(val) = end_time {
                    url.add_param_integer("endTime", val as i128);
                }
                if let Some(val) = limit {
                    url.add_param_integer("limit", val as i128);
                }
                Ok(url)
            };
        self.client.get_signed_with_query(endpoints::API_V3_ALL_ORDER_LIST, 256, add_params)
    }

    /// Asks for the open order lists.
    pub fn get_all_open_oco_orders(&self) -> (r: Result<Request, QuerySerializationError>)
        ensures
            exists|timestamp: i64|
                self@.signed_request_outcome(
                    Method::Get,
                    self@.start(endpoints::API_V3_OPEN_ORDER_LIST@),
                    timestamp,
                    r,
                ),
    {
        self.client.get_signed(endpoints::API_V3_OPEN_ORDER_LIST)
    }

    /// Asks for all orders of the account on a symbol: active, cancelled
    /// and filled.
    pub fn get_all_account_orders(&self, symbol: &str,
        order_id: Option<u64>,
        start_time: Option<u64>,
        end_time: Option<u64>,
        limit: Option<u16>) -> (r: Result<Request, QuerySerializationError>)
        ensures
            exists|timestamp: i64|
                self@.signed_request_outcome(
                    Method::Get,
                    self@.start(endpoints::API_V3_ALL_ORDERS@).with_param(
                        pair_text("symbol"@, symbol@),
                    ).with_optional(
                        optional_u64("orderId"@, order_id),
                    ).with_optional(
                        optional_u64("startTime"@, start_time),
                    ).with_optional(
                        optional_u64("endTime"@, end_time),
                    ).with_optional(
                        optional_u16("limit"@, limit),
                    ),
                    timestamp,
                    r,
                ),
    {
        let add_params = |url: Url| -> (out: Result<Url, QuerySerializationError>)
            requires
                url.wf(),
            ensures
                out is Ok,
                out->Ok_0.wf(),
                out->Ok_0@ == url@.with_param(
                    pair_text("symbol"@, symbol@),
                ).with_optional(
                    optional_u64("orderId"@, order_id),
                ).with_optional(
                    optional_u64("startTime"@, start_time),
                ).with_optional(
                    optional_u64("endTime"@, end_time),
                ).with_optional(
                    optional_u16("limit"@, limit),
                ),
            {
                let mut url = url;
                url.add_param_str("symbol", symbol);
                if let Some(val) = order_id {
                    url.add_param_integer("orderId", val as i128);
                }
                if let Some(val) = start_time {
                    url.add_param_integer("startTime", val as i128);
                }
                if let Some(val) = end_time {
                    url.add_param_integer("endTime", val as i128);
                }
                if let Some(val) = limit {
                    url.add_param_integer("limit", val as i128);
                }
                Ok(url)
            };
        self.client.get_signed_with_query(endpoints::API_V3_ALL_ORDERS, 128, add_params)
    }

    /// Asks for the state of the account.
    pub fn get_account_info(&self) -> (r: Result<Request, QuerySerializationError>)
        ensures
            exists|timestamp: i64|
                self@.signed_request_outcome(
                    Method::Get,
                    self@.start(endpoints::API_V3_ACCOUNT@),
                    timestamp,
                    r,
                ),
    {
        self.client.get_signed(endpoints::API_V3_ACCOUNT)
    }

    /// Asks for the trades of the account on a symbol. The request is given as
    /// its encoded query text, or as the error of encoding it.
    pub fn get_account_trades(&self, req: Result<String, QuerySerializationError>) -> (r: Result<
        Request,
        QuerySerializationError,
    >)
        ensures
            exists|timestamp: i64|
                self@.encoded_outcome(
                    Method::Get,
                    self@.start(endpoints::API_V3_MY_TRADES@),
                    req,
                    timestamp,
                    r,
                ),
    {
        self.client.signed_with_data(Method::Get, endpoints::API_V3_MY_TRADES, 128, req)
    }

    /// Asks for the count of orders against the rate limits.
    pub fn get_order_rate_limit(&self) -> (req: Request)
        ensures
            req@ == self@.plain(Method::Get, self@.start(endpoints::API_V3_RATE_LIMIT_ORDER@)),
    {
        self.client.get(endpoints::API_V3_RATE_LIMIT_ORDER)
    }
}

} // verus!
