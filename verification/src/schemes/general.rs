//! Limits, rules and states as the first client reads them.

use crate::api::client::json::{field, get_field, FromJson, Json};
use crate::api::client::text::str_eq;
use crate::types::ParseError;
use vstd::prelude::*;

verus! {

/// What a rate limit counts.
#[derive(Copy, Clone, Debug, PartialEq, Eq, Structural)]
pub enum RateLimitType {
    Orders,
    RequestWeight,
}

impl RateLimitType {
    /// The name on the wire.
    pub open spec fn name(self) -> Seq<char> {
        match self {
            RateLimitType::Orders => "ORDERS"@,
            RateLimitType::RequestWeight => "REQUEST_WEIGHT"@,
        }
    }

    /// The variant of a name, if it is the name of one.
    pub open spec fn named(name: Seq<char>) -> Option<RateLimitType> {
        if name == "ORDERS"@ {
            Some(RateLimitType::Orders)
        } else if name == "REQUEST_WEIGHT"@ {
            Some(RateLimitType::RequestWeight)
        } else {
            None
        }
    }

    pub fn as_str(&self) -> (s: &'static str)
        ensures
            s@ == self.name(),
    {
        match self {
            RateLimitType::Orders => "ORDERS",
            RateLimitType::RequestWeight => "REQUEST_WEIGHT",
        }
    }

    /// The variant with the given name.
    pub fn from_str(s: &str) -> (r: Result<RateLimitType, ParseError>)
        ensures
            r == match RateLimitType::named(s@) {
                Some(v) => Ok::<RateLimitType, ParseError>(v),
                None => Err::<RateLimitType, ParseError>(ParseError),
            },
    {
        if str_eq(s, "ORDERS") {
            Ok(RateLimitType::Orders)
        } else if str_eq(s, "REQUEST_WEIGHT") {
            Ok(RateLimitType::RequestWeight)
        } else {
            Err(ParseError)
        }
    }

    /// Every variant is found again by its name: no two share one.
    pub proof fn lemma_named_name(self)
        ensures
            RateLimitType::named(self.name()) == Some(self),
    {
        reveal_strlit("ORDERS");
        reveal_strlit("REQUEST_WEIGHT");
        assert("ORDERS"@.len() == 6);
        assert("REQUEST_WEIGHT"@.len() == 14);
    }
}

/// A string decodes to the variant of that name.
impl FromJson for RateLimitType {
    open spec fn decoded(json: Json) -> Option<RateLimitType> {
        match json.text() {
            Some(text) => match RateLimitType::named(text) {
                Some(v) => Some(v),
                None => None,
            },
            None => None,
        }
    }

    fn from_json(json: &Json) -> (r: Option<RateLimitType>) {
        match json.as_str() {
            Some(text) => match RateLimitType::from_str(text) {
                Ok(v) => Some(v),
                Err(_) => None,
            },
            None => None,
        }
    }
}

/// The unit of the window of a rate limit.
#[derive(Copy, Clone, Debug, PartialEq, Eq, Structural)]
pub enum Interval {
    Second,
    Minute,
    Day,
}

impl Interval {
    /// The name on the wire.
    pub open spec fn name(self) -> Seq<char> {
        match self {
            Interval::Second => "SECOND"@,
            Interval::Minute => "MINUTE"@,
            Interval::Day => "DAY"@,
        }
    }

    /// The variant of a name, if it is the name of one.
    pub open spec fn named(name: Seq<char>) -> Option<Interval> {
        if name == "SECOND"@ {
            Some(Interval::Second)
        } else if name == "MINUTE"@ {
            Some(Interval::Minute)
        } else if name == "DAY"@ {
            Some(Interval::Day)
        } else {
            None
        }
    }

    pub fn as_str(&self) -> (s: &'static str)
        ensures
            s@ == self.name(),
    {
        match self {
            Interval::Second => "SECOND",
            Interval::Minute => "MINUTE",
            Interval::Day => "DAY",
        }
    }

    /// The variant with the given name.
    pub fn from_str(s: &str) -> (r: Result<Interval, ParseError>)
        ensures
            r == match Interval::named(s@) {
                Some(v) => Ok::<Interval, ParseError>(v),
                None => Err::<Interval, ParseError>(ParseError),
            },
    {
        if str_eq(s, "SECOND") {
            Ok(Interval::Second)
        } else if str_eq(s, "MINUTE") {
            Ok(Interval::Minute)
        } else if str_eq(s, "DAY") {
            Ok(Interval::Day)
        } else {
            Err(ParseError)
        }
    }

    /// Every variant is found again by its name: no two share one.
    pub proof fn lemma_named_name(self)
        ensures
            Interval::named(self.name()) == Some(self),
    {
        reveal_strlit("SECOND");
        reveal_strlit("MINUTE");
        reveal_strlit("DAY");
        assert("SECOND"@.len() == 6);
        assert("MINUTE"@.len() == 6);
        assert("DAY"@.len() == 3);
        assert("SECOND"@[0] != "MINUTE"@[0]);
    }
}

/// A string decodes to the variant of that name.
impl FromJson for Interval {
    open spec fn decoded(json: Json) -> Option<Interval> {
        match json.text() {
            Some(text) => match Interval::named(text) {
                Some(v) => Some(v),
                None => None,
            },
            None => None,
        }
    }

    fn from_json(json: &Json) -> (r: Option<Interval>) {
        match json.as_str() {
            Some(text) => match Interval::from_str(text) {
                Ok(v) => Some(v),
                Err(_) => None,
            },
            None => None,
        }
    }
}

/// A rate limit of the exchange.
#[derive(Clone, Debug)]
pub struct RateLimit {
    pub rate_limit_type: RateLimitType,
    pub interval: Interval,
    pub interval_num: u64,
    pub limit: u64,
}

/// An object matches where it has every member of the shape, each of its
/// own kind; what else it holds is ignored.
impl FromJson for RateLimit {
    open spec fn decoded(json: Json) -> Option<RateLimit> {
        let rate_limit_type = field::<RateLimitType>(json, "rateLimitType"@);
        let interval = field::<Interval>(json, "interval"@);
        let interval_num = field::<u64>(json, "intervalNum"@);
        let limit = field::<u64>(json, "limit"@);
        if rate_limit_type is Some && interval is Some && interval_num is Some && limit is Some {
            Some(
                RateLimit {
                    rate_limit_type: rate_limit_type->0,
                    interval: interval->0,
                    interval_num: interval_num->0,
                    limit: limit->0,
                },
            )
        } else {
            None
        }
    }

    fn from_json(json: &Json) -> (r: Option<RateLimit>) {
        let rate_limit_type = get_field::<RateLimitType>(json, "rateLimitType")?;
        let interval = get_field::<Interval>(json, "interval")?;
        let interval_num = get_field::<u64>(json, "intervalNum")?;
        let limit = get_field::<u64>(json, "limit")?;
        Some(RateLimit { rate_limit_type, interval, interval_num, limit })
    }
}

/// A rule that holds for the whole exchange.
#[derive(Copy, Clone, Debug, PartialEq, Eq, Structural)]
pub enum ExchangeFilter {
    ExchangeMaxNumOrders { limit: u64 },
    ExchangeMaxAlgoOrders { limit: u64 },
}

/// An object matches by its member `filterType`, which names the rule, and
/// the limit of that rule.
impl FromJson for ExchangeFilter {
    open spec fn decoded(json: Json) -> Option<ExchangeFilter> {
        match (field::<String>(json, "filterType"@), field::<u64>(json, "limit"@)) {
            (Some(kind), Some(limit)) => if kind@ == "EXCHANGE_MAX_NUM_ORDERS"@ {
                Some(ExchangeFilter::ExchangeMaxNumOrders { limit })
            } else if kind@ == "EXCHANGE_MAX_ALGO_ORDERS"@ {
                Some(ExchangeFilter::ExchangeMaxAlgoOrders { limit })
            } else {
                None
            },
            _ => None,
        }
    }

    fn from_json(json: &Json) -> (r: Option<ExchangeFilter>) {
        let kind = get_field::<String>(json, "filterType")?;
        let limit = get_field::<u64>(json, "limit")?;
        if str_eq(kind.as_str(), "EXCHANGE_MAX_NUM_ORDERS") {
            Some(ExchangeFilter::ExchangeMaxNumOrders { limit })
        } else if str_eq(kind.as_str(), "EXCHANGE_MAX_ALGO_ORDERS") {
            Some(ExchangeFilter::ExchangeMaxAlgoOrders { limit })
        } else {
            None
        }
    }
}

/// The trading states of a symbol.
#[derive(Copy, Clone, Debug, PartialEq, Eq, Structural)]
pub enum SymbolStatus {
    PreTrading,
    Trading,
    PostTrading,
    EndOfDay,
    Halt,
    AuctionMatch,
    Break,
}

impl SymbolStatus {
    /// The name on the wire.
    pub open spec fn name(self) -> Seq<char> {
        match self {
            SymbolStatus::PreTrading => "PRE_TRADING"@,
            SymbolStatus::Trading => "TRADING"@,
            SymbolStatus::PostTrading => "POST_TRADING"@,
            SymbolStatus::EndOfDay => "END_OF_DAY"@,
            SymbolStatus::Halt => "HALT"@,
            SymbolStatus::AuctionMatch => "AUCTION_MATCH"@,
            SymbolStatus::Break => "BREAK"@,
        }
    }

    /// The variant of a name, if it is the name of one.
    pub open spec fn named(name: Seq<char>) -> Option<SymbolStatus> {
        if name == "PRE_TRADING"@ {
            Some(SymbolStatus::PreTrading)
        } else if name == "TRADING"@ {
            Some(SymbolStatus::Trading)
        } else if name == "POST_TRADING"@ {
            Some(SymbolStatus::PostTrading)
        } else if name == "END_OF_DAY"@ {
            Some(SymbolStatus::EndOfDay)
        } else if name == "HALT"@ {
            Some(SymbolStatus::Halt)
        } else if name == "AUCTION_MATCH"@ {
            Some(SymbolStatus::AuctionMatch)
        } else if name == "BREAK"@ {
            Some(SymbolStatus::Break)
        } else {
            None
        }
    }

    pub fn as_str(&self) -> (s: &'static str)
        ensures
            s@ == self.name(),
    {
        match self {
            SymbolStatus::PreTrading => "PRE_TRADING",
            SymbolStatus::Trading => "TRADING",
            SymbolStatus::PostTrading => "POST_TRADING",
            SymbolStatus::EndOfDay => "END_OF_DAY",
            SymbolStatus::Halt => "HALT",
            SymbolStatus::AuctionMatch => "AUCTION_MATCH",
            SymbolStatus::Break => "BREAK",
        }
    }

    /// The variant with the given name.
    pub fn from_str(s: &str) -> (r: Result<SymbolStatus, ParseError>)
        ensures
            r == match SymbolStatus::named(s@) {
                Some(v) => Ok::<SymbolStatus, ParseError>(v),
                None => Err::<SymbolStatus, ParseError>(ParseError),
            },
    {
        if str_eq(s, "PRE_TRADING") {
            Ok(SymbolStatus::PreTrading)
        } else if str_eq(s, "TRADING") {
            Ok(SymbolStatus::Trading)
        } else if str_eq(s, "POST_TRADING") {
            Ok(SymbolStatus::PostTrading)
        } else if str_eq(s, "END_OF_DAY") {
            Ok(SymbolStatus::EndOfDay)
        } else if str_eq(s, "HALT") {
            Ok(SymbolStatus::Halt)
        } else if str_eq(s, "AUCTION_MATCH") {
            Ok(SymbolStatus::AuctionMatch)
        } else if str_eq(s, "BREAK") {
            Ok(SymbolStatus::Break)
        } else {
            Err(ParseError)
        }
    }

    /// Every variant is found again by its name: no two share one.
    pub proof fn lemma_named_name(self)
        ensures
            SymbolStatus::named(self.name()) == Some(self),
    {
        reveal_strlit("PRE_TRADING");
        reveal_strlit("TRADING");
        reveal_strlit("POST_TRADING");
        reveal_strlit("END_OF_DAY");
        reveal_strlit("HALT");
        reveal_strlit("AUCTION_MATCH");
        reveal_strlit("BREAK");
        assert("PRE_TRADING"@.len() == 11);
        assert("TRADING"@.len() == 7);
        assert("POST_TRADING"@.len() == 12);
        assert("END_OF_DAY"@.len() == 10);
        assert("HALT"@.len() == 4);
        assert("AUCTION_MATCH"@.len() == 13);
        assert("BREAK"@.len() == 5);
    }
}

/// A string decodes to the variant of that name.
impl FromJson for SymbolStatus {
    open spec fn decoded(json: Json) -> Option<SymbolStatus> {
        match json.text() {
            Some(text) => match SymbolStatus::named(text) {
                Some(v) => Some(v),
                None => None,
            },
            None => None,
        }
    }

    fn from_json(json: &Json) -> (r: Option<SymbolStatus>) {
        match json.as_str() {
            Some(text) => match SymbolStatus::from_str(text) {
                Ok(v) => Some(v),
                Err(_) => None,
            },
            None => None,
        }
    }
}

} // verus!
