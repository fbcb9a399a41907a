//! The paths of the trading endpoints.

use vstd::prelude::*;

verus! {

pub const API_V3_ORDER_TEST: &'static str = "/api/v3/order/test";

pub const API_V3_ORDER: &'static str = "/api/v3/order";

pub const API_V3_OPEN_ORDERS: &'static str = "/api/v3/openOrders";

pub const API_V3_ORDER_CANCEL_REPLACE: &'static str = "/api/v3/order/cancelReplace";

pub const API_V3_ALL_ORDERS: &'static str = "/api/v3/allOrders";

pub const API_V3_ORDER_OCO: &'static str = "/api/v3/order/oco";

pub const API_V3_ORDER_LIST: &'static str = "/api/v3/orderList";

pub const API_V3_ALL_ORDER_LIST: &'static str = "/api/v3/allOrderList";

pub const API_V3_OPEN_ORDER_LIST: &'static str = "/api/v3/openOrderList";

pub const API_V3_ACCOUNT: &'static str = "/api/v3/account";

pub const API_V3_MY_TRADES: &'static str = "/api/v3/myTrades";

pub const API_V3_RATE_LIMIT_ORDER: &'static str = "/api/v3/rateLimit/order";

} // verus!
