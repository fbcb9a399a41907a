//! Names of the spot market.

use crate::api::client::text::str_eq;
use crate::types::ParseError;
use vstd::prelude::*;

verus! {

/// The states of a spot order.
#[derive(Copy, Clone, Debug, PartialEq, Eq, Structural)]
pub enum OrderStatus {
    New,
    PartiallyFilled,
    Filled,
    Canceled,
    PendingCancel,
    Rejected,
    Expired,
    Unknown,
}

impl OrderStatus {
    /// The name that the exchange uses.
    pub open spec fn name(self) -> Seq<char> {
        match self {
            OrderStatus::New => "NEW"@,
            OrderStatus::PartiallyFilled => "PARTIALLY_FILLED"@,
            OrderStatus::Filled => "FILLED"@,
            OrderStatus::Canceled => "CANCELED"@,
            OrderStatus::PendingCancel => "PENDING_CANCEL"@,
            OrderStatus::Rejected => "REJECTED"@,
            OrderStatus::Expired => "EXPIRED"@,
            OrderStatus::Unknown => "UNKNOWN"@,
        }
    }

    /// The variant of a name, if it is the name of one.
    pub open spec fn named(name: Seq<char>) -> Option<OrderStatus> {
        if name == "NEW"@ {
            Some(OrderStatus::New)
        } else if name == "PARTIALLY_FILLED"@ {
            Some(OrderStatus::PartiallyFilled)
        } else if name == "FILLED"@ {
            Some(OrderStatus::Filled)
        } else if name == "CANCELED"@ {
            Some(OrderStatus::Canceled)
        } else if name == "PENDING_CANCEL"@ {
            Some(OrderStatus::PendingCancel)
        } else if name == "REJECTED"@ {
            Some(OrderStatus::Rejected)
        } else if name == "EXPIRED"@ {
            Some(OrderStatus::Expired)
        } else if name == "UNKNOWN"@ {
            Some(OrderStatus::Unknown)
        } else {
            None
        }
    }

    #[inline]
    pub fn as_str(&self) -> (s: &'static str)
        ensures
            s@ == self.name(),
    {
        match self {
            OrderStatus::New => "NEW",
            OrderStatus::PartiallyFilled => "PARTIALLY_FILLED",
            OrderStatus::Filled => "FILLED",
            OrderStatus::Canceled => "CANCELED",
            OrderStatus::PendingCancel => "PENDING_CANCEL",
            OrderStatus::Rejected => "REJECTED",
            OrderStatus::Expired => "EXPIRED",
            OrderStatus::Unknown => "UNKNOWN",
        }
    }

    /// The variant with the given name.
    pub fn from_str(s: &str) -> (r: Result<OrderStatus, ParseError>)
        ensures
            r == match OrderStatus::named(s@) {
                Some(v) => Ok::<OrderStatus, ParseError>(v),
                None => Err::<OrderStatus, ParseError>(ParseError),
            },
    {
        if str_eq(s, "NEW") {
            Ok(OrderStatus::New)
        } else if str_eq(s, "PARTIALLY_FILLED") {
            Ok(OrderStatus::PartiallyFilled)
        } else if str_eq(s, "FILLED") {
            Ok(OrderStatus::Filled)
        } else if str_eq(s, "CANCELED") {
            Ok(OrderStatus::Canceled)
        } else if str_eq(s, "PENDING_CANCEL") {
            Ok(OrderStatus::PendingCancel)
        } else if str_eq(s, "REJECTED") {
            Ok(OrderStatus::Rejected)
        } else if str_eq(s, "EXPIRED") {
            Ok(OrderStatus::Expired)
        } else if str_eq(s, "UNKNOWN") {
            Ok(OrderStatus::Unknown)
        } else {
            Err(ParseError)
        }
    }

    /// Every variant is found again by its name: no two share one.
    pub proof fn lemma_named_name(self)
        ensures
            OrderStatus::named(self.name()) == Some(self),
    {
        reveal_strlit("NEW");
        reveal_strlit("PARTIALLY_FILLED");
        reveal_strlit("FILLED");
        reveal_strlit("CANCELED");
        reveal_strlit("PENDING_CANCEL");
        reveal_strlit("REJECTED");
        reveal_strlit("EXPIRED");
        reveal_strlit("UNKNOWN");
        assert("NEW"@.len() == 3);
        assert("PARTIALLY_FILLED"@.len() == 16);
        assert("FILLED"@.len() == 6);
        assert("CANCELED"@.len() == 8);
        assert("PENDING_CANCEL"@.len() == 14);
        assert("REJECTED"@.len() == 8);
        assert("EXPIRED"@.len() == 7);
        assert("UNKNOWN"@.len() == 7);
        assert("CANCELED"@[0] != "REJECTED"@[0]);
        assert("EXPIRED"@[0] != "UNKNOWN"@[0]);
    }
}

impl<'a> TryFrom<&'a str> for OrderStatus {
    type Error = ParseError;

    fn try_from(s: &'a str) -> (r: Result<OrderStatus, ParseError>) {
        OrderStatus::from_str(s)
    }
}

impl<'a> vstd::std_specs::convert::TryFromSpecImpl<&'a str> for OrderStatus {
    open spec fn obeys_try_from_spec() -> bool {
        true
    }

    open spec fn try_from_spec(s: &'a str) -> Result<OrderStatus, ParseError> {
        match OrderStatus::named(s@) {
            Some(v) => Ok(v),
            None => Err(ParseError),
        }
    }
}

/// The kinds of spot order.
#[derive(Copy, Clone, Debug, PartialEq, Eq, Structural)]
pub enum OrderType {
    Limit,
    Market,
    StopLoss,
    StopLossLimit,
    TakeProfit,
    TakeProfitLimit,
    LimitMaker,
    Unknown,
}

impl OrderType {
    /// The name of the variant, as it is written in this library.
    pub open spec fn name(self) -> Seq<char> {
        match self {
            OrderType::Limit => "Limit"@,
            OrderType::Market => "Market"@,
            OrderType::StopLoss => "StopLoss"@,
            OrderType::StopLossLimit => "StopLossLimit"@,
            OrderType::TakeProfit => "TakeProfit"@,
            OrderType::TakeProfitLimit => "TakeProfitLimit"@,
            OrderType::LimitMaker => "LimitMaker"@,
            OrderType::Unknown => "Unknown"@,
        }
    }

    /// The variant of a name, if it is the name of one.
    pub open spec fn named(name: Seq<char>) -> Option<OrderType> {
        if name == "Limit"@ {
            Some(OrderType::Limit)
        } else if name == "Market"@ {
            Some(OrderType::Market)
        } else if name == "StopLoss"@ {
            Some(OrderType::StopLoss)
        } else if name == "StopLossLimit"@ {
            Some(OrderType::StopLossLimit)
        } else if name == "TakeProfit"@ {
            Some(OrderType::TakeProfit)
        } else if name == "TakeProfitLimit"@ {
            Some(OrderType::TakeProfitLimit)
        } else if name == "LimitMaker"@ {
            Some(OrderType::LimitMaker)
        } else if name == "Unknown"@ {
            Some(OrderType::Unknown)
        } else {
            None
        }
    }

    #[inline]
    pub fn as_str(&self) -> (s: &'static str)
        ensures
            s@ == self.name(),
    {
        match self {
            OrderType::Limit => "Limit",
            OrderType::Market => "Market",
            OrderType::StopLoss => "StopLoss",
            OrderType::StopLossLimit => "StopLossLimit",
            OrderType::TakeProfit => "TakeProfit",
            OrderType::TakeProfitLimit => "TakeProfitLimit",
            OrderType::LimitMaker => "LimitMaker",
            OrderType::Unknown => "Unknown",
        }
    }

    /// The variant with the given name.
    pub fn from_str(s: &str) -> (r: Result<OrderType, ParseError>)
        ensures
            r == match OrderType::named(s@) {
                Some(v) => Ok::<OrderType, ParseError>(v),
                None => Err::<OrderType, ParseError>(ParseError),
            },
    {
        if str_eq(s, "Limit") {
            Ok(OrderType::Limit)
        } else if str_eq(s, "Market") {
            Ok(OrderType::Market)
        } else if str_eq(s, "StopLoss") {
            Ok(OrderType::StopLoss)
        } else if str_eq(s, "StopLossLimit") {
            Ok(OrderType::StopLossLimit)
        } else if str_eq(s, "TakeProfit") {
            Ok(OrderType::TakeProfit)
        } else if str_eq(s, "TakeProfitLimit") {
            Ok(OrderType::TakeProfitLimit)
        } else if str_eq(s, "LimitMaker") {
            Ok(OrderType::LimitMaker)
        } else if str_eq(s, "Unknown") {
            Ok(OrderType::Unknown)
        } else {
            Err(ParseError)
        }
    }

    /// Every variant is found again by its name: no two share one.
    pub proof fn lemma_named_name(self)
        ensures
            OrderType::named(self.name()) == Some(self),
    {
        reveal_strlit("Limit");
        reveal_strlit("Market");
        reveal_strlit("StopLoss");
        reveal_strlit("StopLossLimit");
        reveal_strlit("TakeProfit");
        reveal_strlit("TakeProfitLimit");
        reveal_strlit("LimitMaker");
        reveal_strlit("Unknown");
        assert("Limit"@.len() == 5);
        assert("Market"@.len() == 6);
        assert("StopLoss"@.len() == 8);
        assert("StopLossLimit"@.len() == 13);
        assert("TakeProfit"@.len() == 10);
        assert("TakeProfitLimit"@.len() == 15);
        assert("LimitMaker"@.len() == 10);
        assert("Unknown"@.len() == 7);
        assert("TakeProfit"@[0] != "LimitMaker"@[0]);
    }
}

impl<'a> TryFrom<&'a str> for OrderType {
    type Error = ParseError;

    fn try_from(s: &'a str) -> (r: Result<OrderType, ParseError>) {
        OrderType::from_str(s)
    }
}

impl<'a> vstd::std_specs::convert::TryFromSpecImpl<&'a str> for OrderType {
    open spec fn obeys_try_from_spec() -> bool {
        true
    }

    open spec fn try_from_spec(s: &'a str) -> Result<OrderType, ParseError> {
        match OrderType::named(s@) {
            Some(v) => Ok(v),
            None => Err(ParseError),
        }
    }
}

/// The trading states of a spot symbol.
#[derive(Copy, Clone, Debug, PartialEq, Eq, Structural)]
pub enum SymbolStatus {
    PreTrading,
    Trading,
    PostTrading,
    EndOfDay,
    Halt,
    AuctionMatch,
    Break,
    Unknown,
}

impl SymbolStatus {
    /// The name that the exchange uses.
    pub open spec fn name(self) -> Seq<char> {
        match self {
            SymbolStatus::PreTrading => "PRE_TRADING"@,
            SymbolStatus::Trading => "TRADING"@,
            SymbolStatus::PostTrading => "POST_TRADING"@,
            SymbolStatus::EndOfDay => "END_OF_DAY"@,
            SymbolStatus::Halt => "HALT"@,
            SymbolStatus::AuctionMatch => "AUCTION_MATCH"@,
            SymbolStatus::Break => "BREAK"@,
            SymbolStatus::Unknown => "UNKNOWN"@,
        }
    }

    /// The variant of a name, if it is the name of one.
    pub open spec fn named(name: Seq<char>) -> Option<SymbolStatus> {
        if name == "PRE_TRADING"@ {
            Some(SymbolStatus::PreTrading)
        } else if name == "TRADING"@ {
            Some(SymbolStatus::Trading)
        } else if name == "POST_TRADING"@ {
            Some(SymbolStatus::PostTrading)
        } else if name == "END_OF_DAY"@ {
            Some(SymbolStatus::EndOfDay)
        } else if name == "HALT"@ {
            Some(SymbolStatus::Halt)
        } else if name == "AUCTION_MATCH"@ {
            Some(SymbolStatus::AuctionMatch)
        } else if name == "BREAK"@ {
            Some(SymbolStatus::Break)
        } else if name == "UNKNOWN"@ {
            Some(SymbolStatus::Unknown)
        } else {
            None
        }
    }

    #[inline]
    pub fn as_str(&self) -> (s: &'static str)
        ensures
            s@ == self.name(),
    {
        match self {
            SymbolStatus::PreTrading => "PRE_TRADING",
            SymbolStatus::Trading => "TRADING",
            SymbolStatus::PostTrading => "POST_TRADING",
            SymbolStatus::EndOfDay => "END_OF_DAY",
            SymbolStatus::Halt => "HALT",
            SymbolStatus::AuctionMatch => "AUCTION_MATCH",
            SymbolStatus::Break => "BREAK",
            SymbolStatus::Unknown => "UNKNOWN",
        }
    }

    /// The variant with the given name.
    pub fn from_str(s: &str) -> (r: Result<SymbolStatus, ParseError>)
        ensures
            r == match SymbolStatus::named(s@) {
                Some(v) => Ok::<SymbolStatus, ParseError>(v),
                None => Err::<SymbolStatus, ParseError>(ParseError),
            },
    {
        if str_eq(s, "PRE_TRADING") {
            Ok(SymbolStatus::PreTrading)
        } else if str_eq(s, "TRADING") {
            Ok(SymbolStatus::Trading)
        } else if str_eq(s, "POST_TRADING") {
            Ok(SymbolStatus::PostTrading)
        } else if str_eq(s, "END_OF_DAY") {
            Ok(SymbolStatus::EndOfDay)
        } else if str_eq(s, "HALT") {
            Ok(SymbolStatus::Halt)
        } else if str_eq(s, "AUCTION_MATCH") {
            Ok(SymbolStatus::AuctionMatch)
        } else if str_eq(s, "BREAK") {
            Ok(SymbolStatus::Break)
        } else if str_eq(s, "UNKNOWN") {
            Ok(SymbolStatus::Unknown)
        } else {
            Err(ParseError)
        }
    }

    /// Every variant is found again by its name: no two share one.
    pub proof fn lemma_named_name(self)
        ensures
            SymbolStatus::named(self.name()) == Some(self),
    {
        reveal_strlit("PRE_TRADING");
        reveal_strlit("TRADING");
        reveal_strlit("POST_TRADING");
        reveal_strlit("END_OF_DAY");
        reveal_strlit("HALT");
        reveal_strlit("AUCTION_MATCH");
        reveal_strlit("BREAK");
        reveal_strlit("UNKNOWN");
        assert("PRE_TRADING"@.len() == 11);
        assert("TRADING"@.len() == 7);
        assert("POST_TRADING"@.len() == 12);
        assert("END_OF_DAY"@.len() == 10);
        assert("HALT"@.len() == 4);
        assert("AUCTION_MATCH"@.len() == 13);
        assert("BREAK"@.len() == 5);
        assert("UNKNOWN"@.len() == 7);
        assert("TRADING"@[0] != "UNKNOWN"@[0]);
    }
}

impl<'a> TryFrom<&'a str> for SymbolStatus {
    type Error = ParseError;

    fn try_from(s: &'a str) -> (r: Result<SymbolStatus, ParseError>) {
        SymbolStatus::from_str(s)
    }
}

impl<'a> vstd::std_specs::convert::TryFromSpecImpl<&'a str> for SymbolStatus {
    open spec fn obeys_try_from_spec() -> bool {
        true
    }

    open spec fn try_from_spec(s: &'a str) -> Result<SymbolStatus, ParseError> {
        match SymbolStatus::named(s@) {
            Some(v) => Ok(v),
            None => Err(ParseError),
        }
    }
}

} // verus!
