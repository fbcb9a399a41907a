//! Limits and rules of the exchange.

use crate::api::client::json::{field, get_field, FromJson, Json};
use crate::api::client::text::str_eq;
use crate::types::ParseError;
use vstd::prelude::*;

verus! {

/// What a rate limit counts.
#[derive(Copy, Clone, Debug, PartialEq, Eq, Structural)]
pub enum RateLimitType {
    Orders,
    RawRequests,
    RequestWeight,
}

impl RateLimitType {
    /// The name on the wire.
    pub open spec fn name(self) -> Seq<char> {
        match self {
            RateLimitType::Orders => "ORDERS"@,
            RateLimitType::RawRequests => "RAW_REQUESTS"@,
            RateLimitType::RequestWeight => "REQUEST_WEIGHT"@,
        }
    }

    /// The variant of a name, if it is the name of one.
    pub open spec fn named(name: Seq<char>) -> Option<RateLimitType> {
        if name == "ORDERS"@ {
            Some(RateLimitType::Orders)
        } else if name == "RAW_REQUESTS"@ {
            Some(RateLimitType::RawRequests)
        } else if name == "REQUEST_WEIGHT"@ {
            Some(RateLimitType::RequestWeight)
        } else {
            None
        }
    }

    pub fn as_str(&self) -> (s: &'static str)
        ensures
            s@ == self.name(),
    {
        match self {
            RateLimitType::Orders => "ORDERS",
            RateLimitType::RawRequests => "RAW_REQUESTS",
            RateLimitType::RequestWeight => "REQUEST_WEIGHT",
        }
    }

    /// The variant with the given name.
    pub fn from_str(s: &str) -> (r: Result<RateLimitType, ParseError>)
        ensures
            r == match RateLimitType::named(s@) {
                Some(v) => Ok::<RateLimitType, ParseError>(v),
                None => Err::<RateLimitType, ParseError>(ParseError),
            },
    {
        if str_eq(s, "ORDERS") {
            Ok(RateLimitType::Orders)
        } else if str_eq(s, "RAW_REQUESTS") {
            Ok(RateLimitType::RawRequests)
        } else if str_eq(s, "REQUEST_WEIGHT") {
            Ok(RateLimitType::RequestWeight)
        } else {
            Err(ParseError)
        }
    }

    /// Every variant is found again by its name: no two share one.
    pub proof fn lemma_named_name(self)
        ensures
            RateLimitType::named(self.name()) == Some(self),
    {
        reveal_strlit("ORDERS");
        reveal_strlit("RAW_REQUESTS");
        reveal_strlit("REQUEST_WEIGHT");
        assert("ORDERS"@.len() == 6);
        assert("RAW_REQUESTS"@.len() == 12);
        assert("REQUEST_WEIGHT"@.len() == 14);
    }
}

/// A string decodes to the variant of that name.
impl FromJson for RateLimitType {
    open spec fn decoded(json: Json) -> Option<RateLimitType> {
        match json.text() {
            Some(text) => match RateLimitType::named(text) {
                Some(v) => Some(v),
                None => None,
            },
            None => None,
        }
    }

    fn from_json(json: &Json) -> (r: Option<RateLimitType>) {
        match json.as_str() {
            Some(text) => match RateLimitType::from_str(text) {
                Ok(v) => Some(v),
                Err(_) => None,
            },
            None => None,
        }
    }
}

/// The unit of the window of a rate limit.
#[derive(Copy, Clone, Debug, PartialEq, Eq, Structural)]
pub enum RateLimitInterval {
    Second,
    Minute,
    Day,
}

impl RateLimitInterval {
    /// The name on the wire.
    pub open spec fn name(self) -> Seq<char> {
        match self {
            RateLimitInterval::Second => "SECOND"@,
            RateLimitInterval::Minute => "MINUTE"@,
            RateLimitInterval::Day => "DAY"@,
        }
    }

    /// The variant of a name, if it is the name of one.
    pub open spec fn named(name: Seq<char>) -> Option<RateLimitInterval> {
        if name == "SECOND"@ {
            Some(RateLimitInterval::Second)
        } else if name == "MINUTE"@ {
            Some(RateLimitInterval::Minute)
        } else if name == "DAY"@ {
            Some(RateLimitInterval::Day)
        } else {
            None
        }
    }

    pub fn as_str(&self) -> (s: &'static str)
        ensures
            s@ == self.name(),
    {
        match self {
            RateLimitInterval::Second => "SECOND",
            RateLimitInterval::Minute => "MINUTE",
            RateLimitInterval::Day => "DAY",
        }
    }

    /// The variant with the given name.
    pub fn from_str(s: &str) -> (r: Result<RateLimitInterval, ParseError>)
        ensures
            r == match RateLimitInterval::named(s@) {
                Some(v) => Ok::<RateLimitInterval, ParseError>(v),
                None => Err::<RateLimitInterval, ParseError>(ParseError),
            },
    {
        if str_eq(s, "SECOND") {
            Ok(RateLimitInterval::Second)
        } else if str_eq(s, "MINUTE") {
            Ok(RateLimitInterval::Minute)
        } else if str_eq(s, "DAY") {
            Ok(RateLimitInterval::Day)
        } else {
            Err(ParseError)
        }
    }

    /// Every variant is found again by its name: no two share one.
    pub proof fn lemma_named_name(self)
        ensures
            RateLimitInterval::named(self.name()) == Some(self),
    {
        reveal_strlit("SECOND");
        reveal_strlit("MINUTE");
        reveal_strlit("DAY");
        assert("SECOND"@.len() == 6);
        assert("MINUTE"@.len() == 6);
        assert("DAY"@.len() == 3);
        assert("SECOND"@[0] != "MINUTE"@[0]);
    }
}

/// A string decodes to the variant of that name.
impl FromJson for RateLimitInterval {
    open spec fn decoded(json: Json) -> Option<RateLimitInterval> {
        match json.text() {
            Some(text) => match RateLimitInterval::named(text) {
                Some(v) => Some(v),
                None => None,
            },
            None => None,
        }
    }

    fn from_json(json: &Json) -> (r: Option<RateLimitInterval>) {
        match json.as_str() {
            Some(text) => match RateLimitInterval::from_str(text) {
                Ok(v) => Some(v),
                Err(_) => None,
            },
            None => None,
        }
    }
}

/// A rate limit of the exchange: so many of a kind in a window of so many
/// units.
#[derive(Clone, Debug)]
pub struct RateLimit {
    pub rate_limit_type: RateLimitType,
    pub interval: RateLimitInterval,
    pub interval_num: u32,
    pub limit: u32,
}

/// An object matches where it has every member of the shape, each of its
/// own kind; what else it holds is ignored.
impl FromJson for RateLimit {
    open spec fn decoded(json: Json) -> Option<RateLimit> {
        let rate_limit_type = field::<RateLimitType>(json, "rateLimitType"@);
        let interval = field::<RateLimitInterval>(json, "interval"@);
        let interval_num = field::<u32>(json, "intervalNum"@);
        let limit = field::<u32>(json, "limit"@);
        if rate_limit_type is Some && interval is Some && interval_num is Some && limit is Some {
            Some(
                RateLimit {
                    rate_limit_type: rate_limit_type->0,
                    interval: interval->0,
                    interval_num: interval_num->0,
                    limit: limit->0,
                },
            )
        } else {
            None
        }
    }

    fn from_json(json: &Json) -> (r: Option<RateLimit>) {
        let rate_limit_type = get_field::<RateLimitType>(json, "rateLimitType")?;
        let interval = get_field::<RateLimitInterval>(json, "interval")?;
        let interval_num = get_field::<u32>(json, "intervalNum")?;
        let limit = get_field::<u32>(json, "limit")?;
        Some(RateLimit { rate_limit_type, interval, interval_num, limit })
    }
}

/// A rule that holds for the whole exchange.
#[derive(Copy, Clone, Debug, PartialEq, Eq, Structural)]
pub enum ExchangeFilter {
    ExchangeMaxNumOrders { max_num_orders: u32 },
    ExchangeMaxNumAlgoOrders { max_num_algo_orders: u32 },
    ExchangeMaxNumIcebergOrders { max_num_iceberg_orders: u32 },
    /// A rule of a kind that this library does not know. It is never decoded.
    Unknown,
}

/// An object matches by its member `filterType`, which names the rule, and
/// the one number of that rule.
impl FromJson for ExchangeFilter {
    open spec fn decoded(json: Json) -> Option<ExchangeFilter> {
        match field::<String>(json, "filterType"@) {
            Some(kind) => if kind@ == "EXCHANGE_MAX_NUM_ORDERS"@ {
                match field::<u32>(json, "maxNumOrders"@) {
                    Some(max_num_orders) => Some(
                        ExchangeFilter::ExchangeMaxNumOrders { max_num_orders },
                    ),
                    None => None,
                }
            } else if kind@ == "EXCHANGE_MAX_NUM_ALGO_ORDERS"@ {
                match field::<u32>(json, "maxNumAlgoOrders"@) {
                    Some(max_num_algo_orders) => Some(
                        ExchangeFilter::ExchangeMaxNumAlgoOrders { max_num_algo_orders },
                    ),
                    None => None,
                }
            } else if kind@ == "EXCHANGE_MAX_NUM_ICEBERG_ORDERS"@ {
                match field::<u32>(json, "maxNumIcebergOrders"@) {
                    Some(max_num_iceberg_orders) => Some(
                        ExchangeFilter::ExchangeMaxNumIcebergOrders { max_num_iceberg_orders },
                    ),
                    None => None,
                }
            } else {
                None
            },
            None => None,
        }
    }

    fn from_json(json: &Json) -> (r: Option<ExchangeFilter>) {
        let kind = get_field::<String>(json, "filterType")?;
        if str_eq(kind.as_str(), "EXCHANGE_MAX_NUM_ORDERS") {
            match get_field::<u32>(json, "maxNumOrders") {
                Some(max_num_orders) => Some(ExchangeFilter::ExchangeMaxNumOrders { max_num_orders }),
                None => None,
            }
        } else if str_eq(kind.as_str(), "EXCHANGE_MAX_NUM_ALGO_ORDERS") {
            match get_field::<u32>(json, "maxNumAlgoOrders") {
                Some(max_num_algo_orders) => Some(
                    ExchangeFilter::ExchangeMaxNumAlgoOrders { max_num_algo_orders },
                ),
                None => None,
            }
        } else if str_eq(kind.as_str(), "EXCHANGE_MAX_NUM_ICEBERG_ORDERS") {
            match get_field::<u32>(json, "maxNumIcebergOrders") {
                Some(max_num_iceberg_orders) => Some(
                    ExchangeFilter::ExchangeMaxNumIcebergOrders { max_num_iceberg_orders },
                ),
                None => None,
            }
        } else {
            None
        }
    }
}

} // verus!
