//! Names shared by the futures markets.

use crate::api::client::text::str_eq;
use crate::types::ParseError;
use vstd::prelude::*;

verus! {

/// The kinds of order on the futures markets.
#[derive(Copy, Clone, Debug, PartialEq, Eq, Structural)]
pub enum OrderType {
    Limit,
    Market,
    Stop,
    StopMarket,
    TakeProfit,
    TakeProfitMarket,
    TrailingStopMarket,
    Unknown,
}

impl OrderType {
    /// The name that the exchange uses.
    pub open spec fn name(self) -> Seq<char> {
        match self {
            OrderType::Limit => "LIMIT"@,
            OrderType::Market => "MARKET"@,
            OrderType::Stop => "STOP"@,
            OrderType::StopMarket => "STOP_MARKET"@,
            OrderType::TakeProfit => "TAKE_PROFIT"@,
            OrderType::TakeProfitMarket => "TAKE_PROFIT_MARKET"@,
            OrderType::TrailingStopMarket => "TRAILING_STOP_MARKET"@,
            OrderType::Unknown => "UNKNOWN"@,
        }
    }

    /// The variant of a name, if it is the name of one.
    pub open spec fn named(name: Seq<char>) -> Option<OrderType> {
        if name == "LIMIT"@ {
            Some(OrderType::Limit)
        } else if name == "MARKET"@ {
            Some(OrderType::Market)
        } else if name == "STOP"@ {
            Some(OrderType::Stop)
        } else if name == "STOP_MARKET"@ {
            Some(OrderType::StopMarket)
        } else if name == "TAKE_PROFIT"@ {
            Some(OrderType::TakeProfit)
        } else if name == "TAKE_PROFIT_MARKET"@ {
            Some(OrderType::TakeProfitMarket)
        } else if name == "TRAILING_STOP_MARKET"@ {
            Some(OrderType::TrailingStopMarket)
        } else if name == "UNKNOWN"@ {
            Some(OrderType::Unknown)
        } else {
            None
        }
    }

    #[inline]
    pub fn as_str(&self) -> (s: &'static str)
        ensures
            s@ == self.name(),
    {
        match self {
            OrderType::Limit => "LIMIT",
            OrderType::Market => "MARKET",
            OrderType::Stop => "STOP",
            OrderType::StopMarket => "STOP_MARKET",
            OrderType::TakeProfit => "TAKE_PROFIT",
            OrderType::TakeProfitMarket => "TAKE_PROFIT_MARKET",
            OrderType::TrailingStopMarket => "TRAILING_STOP_MARKET",
            OrderType::Unknown => "UNKNOWN",
        }
    }

    /// The variant with the given name.
    pub fn from_str(s: &str) -> (r: Result<OrderType, ParseError>)
        ensures
            r == match OrderType::named(s@) {
                Some(v) => Ok::<OrderType, ParseError>(v),
                None => Err::<OrderType, ParseError>(ParseError),
            },
    {
        if str_eq(s, "LIMIT") {
            Ok(OrderType::Limit)
        } else if str_eq(s, "MARKET") {
            Ok(OrderType::Market)
        } else if str_eq(s, "STOP") {
            Ok(OrderType::Stop)
        } else if str_eq(s, "STOP_MARKET") {
            Ok(OrderType::StopMarket)
        } else if str_eq(s, "TAKE_PROFIT") {
            Ok(OrderType::TakeProfit)
        } else if str_eq(s, "TAKE_PROFIT_MARKET") {
            Ok(OrderType::TakeProfitMarket)
        } else if str_eq(s, "TRAILING_STOP_MARKET") {
            Ok(OrderType::TrailingStopMarket)
        } else if str_eq(s, "UNKNOWN") {
            Ok(OrderType::Unknown)
        } else {
            Err(ParseError)
        }
    }

    /// Every variant is found again by its name: no two share one.
    pub proof fn lemma_named_name(self)
        ensures
            OrderType::named(self.name()) == Some(self),
    {
        reveal_strlit("LIMIT");
        reveal_strlit("MARKET");
        reveal_strlit("STOP");
        reveal_strlit("STOP_MARKET");
        reveal_strlit("TAKE_PROFIT");
        reveal_strlit("TAKE_PROFIT_MARKET");
        reveal_strlit("TRAILING_STOP_MARKET");
        reveal_strlit("UNKNOWN");
        assert("LIMIT"@.len() == 5);
        assert("MARKET"@.len() == 6);
        assert("STOP"@.len() == 4);
        assert("STOP_MARKET"@.len() == 11);
        assert("TAKE_PROFIT"@.len() == 11);
        assert("TAKE_PROFIT_MARKET"@.len() == 18);
        assert("TRAILING_STOP_MARKET"@.len() == 20);
        assert("UNKNOWN"@.len() == 7);
        assert("STOP_MARKET"@[0] != "TAKE_PROFIT"@[0]);
    }
}

impl<'a> TryFrom<&'a str> for OrderType {
    type Error = ParseError;

    fn try_from(s: &'a str) -> (r: Result<OrderType, ParseError>) {
        OrderType::from_str(s)
    }
}

impl<'a> vstd::std_specs::convert::TryFromSpecImpl<&'a str> for OrderType {
    open spec fn obeys_try_from_spec() -> bool {
        true
    }

    open spec fn try_from_spec(s: &'a str) -> Result<OrderType, ParseError> {
        match OrderType::named(s@) {
            Some(v) => Ok(v),
            None => Err(ParseError),
        }
    }
}

} // verus!
