//! The paths of the market data endpoints.

use vstd::prelude::*;

verus! {

pub const DAPI_V1_PING: &'static str = "/dapi/v1/ping";

pub const DAPI_V1_TIME: &'static str = "/dapi/v1/time";

pub const DAPI_V1_EXCHANGE_INFO: &'static str = "/dapi/v1/exchangeInfo";

pub const DAPI_V1_DEPTH: &'static str = "/dapi/v1/depth";

} // verus!
