//! The paths of the market data endpoints.

use vstd::prelude::*;

verus! {

pub const FAPI_V1_PING: &'static str = "/fapi/v1/ping";

pub const FAPI_V1_TIME: &'static str = "/fapi/v1/time";

pub const FAPI_V1_EXCHANGE_INFO: &'static str = "/fapi/v1/exchangeInfo";

pub const FAPI_V1_DEPTH: &'static str = "/fapi/v1/depth";

} // verus!
