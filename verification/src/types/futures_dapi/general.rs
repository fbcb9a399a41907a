//! Names of the coin-margined delivery futures market.

pub use crate::types::futures_common::general::OrderType;

use crate::api::client::text::str_eq;
use crate::types::ParseError;
use vstd::prelude::*;

verus! {

/// The kinds of delivery contract. The two delivering kinds occur only while a contract is being delivered.
#[derive(Copy, Clone, Debug, PartialEq, Eq, Structural)]
pub enum ContractType {
    Perpetual,
    CurrentQuarter,
    NextQuarter,
    CurrentQuarterDelivering,
    NextQuarterDelivering,
    Unknown,
}

impl ContractType {
    /// The name that the exchange uses.
    pub open spec fn name(self) -> Seq<char> {
        match self {
            ContractType::Perpetual => "PERPETUAL"@,
            ContractType::CurrentQuarter => "CURRENT_QUARTER"@,
            ContractType::NextQuarter => "NEXT_QUARTER"@,
            ContractType::CurrentQuarterDelivering => "CURRENT_QUARTER_DELIVERING"@,
            ContractType::NextQuarterDelivering => "NEXT_QUARTER_DELIVERING"@,
            ContractType::Unknown => "UNKNOWN"@,
        }
    }

    /// The variant of a name, if it is the name of one.
    pub open spec fn named(name: Seq<char>) -> Option<ContractType> {
        if name == "PERPETUAL"@ {
            Some(ContractType::Perpetual)
        } else if name == "CURRENT_QUARTER"@ {
            Some(ContractType::CurrentQuarter)
        } else if name == "NEXT_QUARTER"@ {
            Some(ContractType::NextQuarter)
        } else if name == "CURRENT_QUARTER_DELIVERING"@ {
            Some(ContractType::CurrentQuarterDelivering)
        } else if name == "NEXT_QUARTER_DELIVERING"@ {
            Some(ContractType::NextQuarterDelivering)
        } else if name == "UNKNOWN"@ {
            Some(ContractType::Unknown)
        } else {
            None
        }
    }

    #[inline]
    pub fn as_str(&self) -> (s: &'static str)
        ensures
            s@ == self.name(),
    {
        match self {
            ContractType::Perpetual => "PERPETUAL",
            ContractType::CurrentQuarter => "CURRENT_QUARTER",
            ContractType::NextQuarter => "NEXT_QUARTER",
            ContractType::CurrentQuarterDelivering => "CURRENT_QUARTER_DELIVERING",
            ContractType::NextQuarterDelivering => "NEXT_QUARTER_DELIVERING",
            ContractType::Unknown => "UNKNOWN",
        }
    }

    /// The variant with the given name.
    pub fn from_str(s: &str) -> (r: Result<ContractType, ParseError>)
        ensures
            r == match ContractType::named(s@) {
                Some(v) => Ok::<ContractType, ParseError>(v),
                None => Err::<ContractType, ParseError>(ParseError),
            },
    {
        if str_eq(s, "PERPETUAL") {
            Ok(ContractType::Perpetual)
        } else if str_eq(s, "CURRENT_QUARTER") {
            Ok(ContractType::CurrentQuarter)
        } else if str_eq(s, "NEXT_QUARTER") {
            Ok(ContractType::NextQuarter)
        } else if str_eq(s, "CURRENT_QUARTER_DELIVERING") {
            Ok(ContractType::CurrentQuarterDelivering)
        } else if str_eq(s, "NEXT_QUARTER_DELIVERING") {
            Ok(ContractType::NextQuarterDelivering)
        } else if str_eq(s, "UNKNOWN") {
            Ok(ContractType::Unknown)
        } else {
            Err(ParseError)
        }
    }

    /// Every variant is found again by its name: no two share one.
    pub proof fn lemma_named_name(self)
        ensures
            ContractType::named(self.name()) == Some(self),
    {
        reveal_strlit("PERPETUAL");
        reveal_strlit("CURRENT_QUARTER");
        reveal_strlit("NEXT_QUARTER");
        reveal_strlit("CURRENT_QUARTER_DELIVERING");
        reveal_strlit("NEXT_QUARTER_DELIVERING");
        reveal_strlit("UNKNOWN");
        assert("PERPETUAL"@.len() == 9);
        assert("CURRENT_QUARTER"@.len() == 15);
        assert("NEXT_QUARTER"@.len() == 12);
        assert("CURRENT_QUARTER_DELIVERING"@.len() == 26);
        assert("NEXT_QUARTER_DELIVERING"@.len() == 23);
        assert("UNKNOWN"@.len() == 7);
    }
}

impl<'a> TryFrom<&'a str> for ContractType {
    type Error = ParseError;

    fn try_from(s: &'a str) -> (r: Result<ContractType, ParseError>) {
        ContractType::from_str(s)
    }
}

impl<'a> vstd::std_specs::convert::TryFromSpecImpl<&'a str> for ContractType {
    open spec fn obeys_try_from_spec() -> bool {
        true
    }

    open spec fn try_from_spec(s: &'a str) -> Result<ContractType, ParseError> {
        match ContractType::named(s@) {
            Some(v) => Ok(v),
            None => Err(ParseError),
        }
    }
}

/// The stages in the life of a delivery contract.
#[derive(Copy, Clone, Debug, PartialEq, Eq, Structural)]
pub enum ContractStatus {
    PendingTrading,
    Trading,
    PreDelivering,
    Delivering,
    Delivered,
    Unknown,
}

impl ContractStatus {
    /// The name that the exchange uses.
    pub open spec fn name(self) -> Seq<char> {
        match self {
            ContractStatus::PendingTrading => "PENDING_TRADING"@,
            ContractStatus::Trading => "TRADING"@,
            ContractStatus::PreDelivering => "PRE_DELIVERING"@,
            ContractStatus::Delivering => "DELIVERING"@,
            ContractStatus::Delivered => "DELIVERED"@,
            ContractStatus::Unknown => "UNKNOWN"@,
        }
    }

    /// The variant of a name, if it is the name of one.
    pub open spec fn named(name: Seq<char>) -> Option<ContractStatus> {
        if name == "PENDING_TRADING"@ {
            Some(ContractStatus::PendingTrading)
        } else if name == "TRADING"@ {
            Some(ContractStatus::Trading)
        } else if name == "PRE_DELIVERING"@ {
            Some(ContractStatus::PreDelivering)
        } else if name == "DELIVERING"@ {
            Some(ContractStatus::Delivering)
        } else if name == "DELIVERED"@ {
            Some(ContractStatus::Delivered)
        } else if name == "UNKNOWN"@ {
            Some(ContractStatus::Unknown)
        } else {
            None
        }
    }

    #[inline]
    pub fn as_str(&self) -> (s: &'static str)
        ensures
            s@ == self.name(),
    {
        match self {
            ContractStatus::PendingTrading => "PENDING_TRADING",
            ContractStatus::Trading => "TRADING",
            ContractStatus::PreDelivering => "PRE_DELIVERING",
            ContractStatus::Delivering => "DELIVERING",
            ContractStatus::Delivered => "DELIVERED",
            ContractStatus::Unknown => "UNKNOWN",
        }
    }

    /// The variant with the given name.
    pub fn from_str(s: &str) -> (r: Result<ContractStatus, ParseError>)
        ensures
            r == match ContractStatus::named(s@) {
                Some(v) => Ok::<ContractStatus, ParseError>(v),
                None => Err::<ContractStatus, ParseError>(ParseError),
            },
    {
        if str_eq(s, "PENDING_TRADING") {
            Ok(ContractStatus::PendingTrading)
        } else if str_eq(s, "TRADING") {
            Ok(ContractStatus::Trading)
        } else if str_eq(s, "PRE_DELIVERING") {
            Ok(ContractStatus::PreDelivering)
        } else if str_eq(s, "DELIVERING") {
            Ok(ContractStatus::Delivering)
        } else if str_eq(s, "DELIVERED") {
            Ok(ContractStatus::Delivered)
        } else if str_eq(s, "UNKNOWN") {
            Ok(ContractStatus::Unknown)
        } else {
            Err(ParseError)
        }
    }

    /// Every variant is found again by its name: no two share one.
    pub proof fn lemma_named_name(self)
        ensures
            ContractStatus::named(self.name()) == Some(self),
    {
        reveal_strlit("PENDING_TRADING");
        reveal_strlit("TRADING");
        reveal_strlit("PRE_DELIVERING");
        reveal_strlit("DELIVERING");
        reveal_strlit("DELIVERED");
        reveal_strlit("UNKNOWN");
        assert("PENDING_TRADING"@.len() == 15);
        assert("TRADING"@.len() == 7);
        assert("PRE_DELIVERING"@.len() == 14);
        assert("DELIVERING"@.len() == 10);
        assert("DELIVERED"@.len() == 9);
        assert("UNKNOWN"@.len() == 7);
        assert("TRADING"@[0] != "UNKNOWN"@[0]);
    }
}

impl<'a> TryFrom<&'a str> for ContractStatus {
    type Error = ParseError;

    fn try_from(s: &'a str) -> (r: Result<ContractStatus, ParseError>) {
        ContractStatus::from_str(s)
    }
}

impl<'a> vstd::std_specs::convert::TryFromSpecImpl<&'a str> for ContractStatus {
    open spec fn obeys_try_from_spec() -> bool {
        true
    }

    open spec fn try_from_spec(s: &'a str) -> Result<ContractStatus, ParseError> {
        match ContractStatus::named(s@) {
            Some(v) => Ok(v),
            None => Err(ParseError),
        }
    }
}

} // verus!
