//! Names of the USD-margined perpetual futures market.

pub use crate::types::futures_common::general::OrderType;

use crate::api::client::text::str_eq;
use crate::types::ParseError;
use vstd::prelude::*;

verus! {

/// The kinds of contract on the perpetual futures market.
#[derive(Copy, Clone, Debug, PartialEq, Eq, Structural)]
pub enum ContractType {
    Perpetual,
    CurrentMonth,
    NextMonth,
    CurrentQuarter,
    NextQuarter,
    Empty,
    Unknown,
}

impl ContractType {
    /// The name that the exchange uses.
    pub open spec fn name(self) -> Seq<char> {
        match self {
            ContractType::Perpetual => "PERPETUAL"@,
            ContractType::CurrentMonth => "CURRENT_MONTH"@,
            ContractType::NextMonth => "NEXT_MONTH"@,
            ContractType::CurrentQuarter => "CURRENT_QUARTER"@,
            ContractType::NextQuarter => "NEXT_QUARTER"@,
            ContractType::Empty => "EMPTY"@,
            ContractType::Unknown => "UNKNOWN"@,
        }
    }

    /// The variant of a name, if it is the name of one.
    pub open spec fn named(name: Seq<char>) -> Option<ContractType> {
        if name == "PERPETUAL"@ {
            Some(ContractType::Perpetual)
        } else if name == "CURRENT_MONTH"@ {
            Some(ContractType::CurrentMonth)
        } else if name == "NEXT_MONTH"@ {
            Some(ContractType::NextMonth)
        } else if name == "CURRENT_QUARTER"@ {
            Some(ContractType::CurrentQuarter)
        } else if name == "NEXT_QUARTER"@ {
            Some(ContractType::NextQuarter)
        } else if name == "EMPTY"@ {
            Some(ContractType::Empty)
        } else if name == "UNKNOWN"@ {
            Some(ContractType::Unknown)
        } else {
            None
        }
    }

    #[inline]
    pub fn as_str(&self) -> (s: &'static str)
        ensures
            s@ == self.name(),
    {
        match self {
            ContractType::Perpetual => "PERPETUAL",
            ContractType::CurrentMonth => "CURRENT_MONTH",
            ContractType::NextMonth => "NEXT_MONTH",
            ContractType::CurrentQuarter => "CURRENT_QUARTER",
            ContractType::NextQuarter => "NEXT_QUARTER",
            ContractType::Empty => "EMPTY",
            ContractType::Unknown => "UNKNOWN",
        }
    }

    /// The variant with the given name.
    pub fn from_str(s: &str) -> (r: Result<ContractType, ParseError>)
        ensures
            r == match ContractType::named(s@) {
                Some(v) => Ok::<ContractType, ParseError>(v),
                None => Err::<ContractType, ParseError>(ParseError),
            },
    {
        if str_eq(s, "PERPETUAL") {
            Ok(ContractType::Perpetual)
        } else if str_eq(s, "CURRENT_MONTH") {
            Ok(ContractType::CurrentMonth)
        } else if str_eq(s, "NEXT_MONTH") {
            Ok(ContractType::NextMonth)
        } else if str_eq(s, "CURRENT_QUARTER") {
            Ok(ContractType::CurrentQuarter)
        } else if str_eq(s, "NEXT_QUARTER") {
            Ok(ContractType::NextQuarter)
        } else if str_eq(s, "EMPTY") {
            Ok(ContractType::Empty)
        } else if str_eq(s, "UNKNOWN") {
            Ok(ContractType::Unknown)
        } else {
            Err(ParseError)
        }
    }

    /// Every variant is found again by its name: no two share one.
    pub proof fn lemma_named_name(self)
        ensures
            ContractType::named(self.name()) == Some(self),
    {
        reveal_strlit("PERPETUAL");
        reveal_strlit("CURRENT_MONTH");
        reveal_strlit("NEXT_MONTH");
        reveal_strlit("CURRENT_QUARTER");
        reveal_strlit("NEXT_QUARTER");
        reveal_strlit("EMPTY");
        reveal_strlit("UNKNOWN");
        assert("PERPETUAL"@.len() == 9);
        assert("CURRENT_MONTH"@.len() == 13);
        assert("NEXT_MONTH"@.len() == 10);
        assert("CURRENT_QUARTER"@.len() == 15);
        assert("NEXT_QUARTER"@.len() == 12);
        assert("EMPTY"@.len() == 5);
        assert("UNKNOWN"@.len() == 7);
    }
}

impl<'a> TryFrom<&'a str> for ContractType {
    type Error = ParseError;

    fn try_from(s: &'a str) -> (r: Result<ContractType, ParseError>) {
        ContractType::from_str(s)
    }
}

impl<'a> vstd::std_specs::convert::TryFromSpecImpl<&'a str> for ContractType {
    open spec fn obeys_try_from_spec() -> bool {
        true
    }

    open spec fn try_from_spec(s: &'a str) -> Result<ContractType, ParseError> {
        match ContractType::named(s@) {
            Some(v) => Ok(v),
            None => Err(ParseError),
        }
    }
}

/// The trading states of a futures symbol.
#[derive(Copy, Clone, Debug, PartialEq, Eq, Structural)]
pub enum SymbolStatus {
    PreTrading,
    Trading,
    PostTrading,
    EndOfDay,
    Halt,
    AuctionMatch,
    Break,
    PendingTrading,
    Settling,
    Unknown,
}

impl SymbolStatus {
    /// The name that the exchange uses.
    pub open spec fn name(self) -> Seq<char> {
        match self {
            SymbolStatus::PreTrading => "PRE_TRADING"@,
            SymbolStatus::Trading => "TRADING"@,
            SymbolStatus::PostTrading => "POST_TRADING"@,
            SymbolStatus::EndOfDay => "END_OF_DAY"@,
            SymbolStatus::Halt => "HALT"@,
            SymbolStatus::AuctionMatch => "AUCTION_MATCH"@,
            SymbolStatus::Break => "BREAK"@,
            SymbolStatus::PendingTrading => "PENDING_TRADING"@,
            SymbolStatus::Settling => "SETTLING"@,
            SymbolStatus::Unknown => "UNKNOWN"@,
        }
    }

    /// The variant of a name, if it is the name of one.
    pub open spec fn named(name: Seq<char>) -> Option<SymbolStatus> {
        if name == "PRE_TRADING"@ {
            Some(SymbolStatus::PreTrading)
        } else if name == "TRADING"@ {
            Some(SymbolStatus::Trading)
        } else if name == "POST_TRADING"@ {
            Some(SymbolStatus::PostTrading)
        } else if name == "END_OF_DAY"@ {
            Some(SymbolStatus::EndOfDay)
        } else if name == "HALT"@ {
            Some(SymbolStatus::Halt)
        } else if name == "AUCTION_MATCH"@ {
            Some(SymbolStatus::AuctionMatch)
        } else if name == "BREAK"@ {
            Some(SymbolStatus::Break)
        } else if name == "PENDING_TRADING"@ {
            Some(SymbolStatus::PendingTrading)
        } else if name == "SETTLING"@ {
            Some(SymbolStatus::Settling)
        } else if name == "UNKNOWN"@ {
            Some(SymbolStatus::Unknown)
        } else {
            None
        }
    }

    #[inline]
    pub fn as_str(&self) -> (s: &'static str)
        ensures
            s@ == self.name(),
    {
        match self {
            SymbolStatus::PreTrading => "PRE_TRADING",
            SymbolStatus::Trading => "TRADING",
            SymbolStatus::PostTrading => "POST_TRADING",
            SymbolStatus::EndOfDay => "END_OF_DAY",
            SymbolStatus::Halt => "HALT",
            SymbolStatus::AuctionMatch => "AUCTION_MATCH",
            SymbolStatus::Break => "BREAK",
            SymbolStatus::PendingTrading => "PENDING_TRADING",
            SymbolStatus::Settling => "SETTLING",
            SymbolStatus::Unknown => "UNKNOWN",
        }
    }

    /// The variant with the given name.
    pub fn from_str(s: &str) -> (r: Result<SymbolStatus, ParseError>)
        ensures
            r == match SymbolStatus::named(s@) {
                Some(v) => Ok::<SymbolStatus, ParseError>(v),
                None => Err::<SymbolStatus, ParseError>(ParseError),
            },
    {
        if str_eq(s, "PRE_TRADING") {
            Ok(SymbolStatus::PreTrading)
        } else if str_eq(s, "TRADING") {
            Ok(SymbolStatus::Trading)
        } else if str_eq(s, "POST_TRADING") {
            Ok(SymbolStatus::PostTrading)
        } else if str_eq(s, "END_OF_DAY") {
            Ok(SymbolStatus::EndOfDay)
        } else if str_eq(s, "HALT") {
            Ok(SymbolStatus::Halt)
        } else if str_eq(s, "AUCTION_MATCH") {
            Ok(SymbolStatus::AuctionMatch)
        } else if str_eq(s, "BREAK") {
            Ok(SymbolStatus::Break)
        } else if str_eq(s, "PENDING_TRADING") {
            Ok(SymbolStatus::PendingTrading)
        } else if str_eq(s, "SETTLING") {
            Ok(SymbolStatus::Settling)
        } else if str_eq(s, "UNKNOWN") {
            Ok(SymbolStatus::Unknown)
        } else {
            Err(ParseError)
        }
    }

    /// Every variant is found again by its name: no two share one.
    pub proof fn lemma_named_name(self)
        ensures
            SymbolStatus::named(self.name()) == Some(self),
    {
        reveal_strlit("PRE_TRADING");
        reveal_strlit("TRADING");
        reveal_strlit("POST_TRADING");
        reveal_strlit("END_OF_DAY");
        reveal_strlit("HALT");
        reveal_strlit("AUCTION_MATCH");
        reveal_strlit("BREAK");
        reveal_strlit("PENDING_TRADING");
        reveal_strlit("SETTLING");
        reveal_strlit("UNKNOWN");
        assert("PRE_TRADING"@.len() == 11);
        assert("TRADING"@.len() == 7);
        assert("POST_TRADING"@.len() == 12);
        assert("END_OF_DAY"@.len() == 10);
        assert("HALT"@.len() == 4);
        assert("AUCTION_MATCH"@.len() == 13);
        assert("BREAK"@.len() == 5);
        assert("PENDING_TRADING"@.len() == 15);
        assert("SETTLING"@.len() == 8);
        assert("UNKNOWN"@.len() == 7);
        assert("TRADING"@[0] != "UNKNOWN"@[0]);
    }
}

impl<'a> TryFrom<&'a str> for SymbolStatus {
    type Error = ParseError;

    fn try_from(s: &'a str) -> (r: Result<SymbolStatus, ParseError>) {
        SymbolStatus::from_str(s)
    }
}

impl<'a> vstd::std_specs::convert::TryFromSpecImpl<&'a str> for SymbolStatus {
    open spec fn obeys_try_from_spec() -> bool {
        true
    }

    open spec fn try_from_spec(s: &'a str) -> Result<SymbolStatus, ParseError> {
        match SymbolStatus::named(s@) {
            Some(v) => Ok(v),
            None => Err(ParseError),
        }
    }
}

} // verus!
