//! What an account or a symbol is permitted to trade.

use crate::api::client::text::str_eq;
use crate::types::ParseError;
use vstd::prelude::*;

verus! {

/// A permission of the spot market.
#[derive(Copy, Clone, Debug, PartialEq, Eq, Structural)]
pub enum Permission {
    Spot,
    Margin,
    Leveraged,
    TrdGrp002,
    TrdGrp003,
    TrdGrp004,
    TrdGrp005,
    Unknown,
}

impl Permission {
    /// The name that the exchange uses.
    pub open spec fn name(self) -> Seq<char> {
        match self {
            Permission::Spot => "SPOT"@,
            Permission::Margin => "MARGIN"@,
            Permission::Leveraged => "LEVERAGED"@,
            Permission::TrdGrp002 => "TRD_GRP_002"@,
            Permission::TrdGrp003 => "TRD_GRP_003"@,
            Permission::TrdGrp004 => "TRD_GRP_004"@,
            Permission::TrdGrp005 => "TRD_GRP_005"@,
            Permission::Unknown => "UNKNOWN"@,
        }
    }

    /// The variant of a name, if it is the name of one.
    pub open spec fn named(name: Seq<char>) -> Option<Permission> {
        if name == "SPOT"@ {
            Some(Permission::Spot)
        } else if name == "MARGIN"@ {
            Some(Permission::Margin)
        } else if name == "LEVERAGED"@ {
            Some(Permission::Leveraged)
        } else if name == "TRD_GRP_002"@ {
            Some(Permission::TrdGrp002)
        } else if name == "TRD_GRP_003"@ {
            Some(Permission::TrdGrp003)
        } else if name == "TRD_GRP_004"@ {
            Some(Permission::TrdGrp004)
        } else if name == "TRD_GRP_005"@ {
            Some(Permission::TrdGrp005)
        } else if name == "UNKNOWN"@ {
            Some(Permission::Unknown)
        } else {
            None
        }
    }

    #[inline]
    pub fn as_str(&self) -> (s: &'static str)
        ensures
            s@ == self.name(),
    {
        match self {
            Permission::Spot => "SPOT",
            Permission::Margin => "MARGIN",
            Permission::Leveraged => "LEVERAGED",
            Permission::TrdGrp002 => "TRD_GRP_002",
            Permission::TrdGrp003 => "TRD_GRP_003",
            Permission::TrdGrp004 => "TRD_GRP_004",
            Permission::TrdGrp005 => "TRD_GRP_005",
            Permission::Unknown => "UNKNOWN",
        }
    }

    /// The variant with the given name.
    pub fn from_str(s: &str) -> (r: Result<Permission, ParseError>)
        ensures
            r == match Permission::named(s@) {
                Some(v) => Ok::<Permission, ParseError>(v),
                None => Err::<Permission, ParseError>(ParseError),
            },
    {
        if str_eq(s, "SPOT") {
            Ok(Permission::Spot)
        } else if str_eq(s, "MARGIN") {
            Ok(Permission::Margin)
        } else if str_eq(s, "LEVERAGED") {
            Ok(Permission::Leveraged)
        } else if str_eq(s, "TRD_GRP_002") {
            Ok(Permission::TrdGrp002)
        } else if str_eq(s, "TRD_GRP_003") {
            Ok(Permission::TrdGrp003)
        } else if str_eq(s, "TRD_GRP_004") {
            Ok(Permission::TrdGrp004)
        } else if str_eq(s, "TRD_GRP_005") {
            Ok(Permission::TrdGrp005)
        } else if str_eq(s, "UNKNOWN") {
            Ok(Permission::Unknown)
        } else {
            Err(ParseError)
        }
    }

    /// Every variant is found again by its name: no two share one.
    pub proof fn lemma_named_name(self)
        ensures
            Permission::named(self.name()) == Some(self),
    {
        reveal_strlit("SPOT");
        reveal_strlit("MARGIN");
        reveal_strlit("LEVERAGED");
        reveal_strlit("TRD_GRP_002");
        reveal_strlit("TRD_GRP_003");
        reveal_strlit("TRD_GRP_004");
        reveal_strlit("TRD_GRP_005");
        reveal_strlit("UNKNOWN");
        assert("SPOT"@.len() == 4);
        assert("MARGIN"@.len() == 6);
        assert("LEVERAGED"@.len() == 9);
        assert("TRD_GRP_002"@.len() == 11);
        assert("TRD_GRP_003"@.len() == 11);
        assert("TRD_GRP_004"@.len() == 11);
        assert("TRD_GRP_005"@.len() == 11);
        assert("UNKNOWN"@.len() == 7);
        assert("TRD_GRP_002"@[10] != "TRD_GRP_003"@[10]);
        assert("TRD_GRP_002"@[10] != "TRD_GRP_004"@[10]);
        assert("TRD_GRP_002"@[10] != "TRD_GRP_005"@[10]);
        assert("TRD_GRP_003"@[10] != "TRD_GRP_004"@[10]);
        assert("TRD_GRP_003"@[10] != "TRD_GRP_005"@[10]);
        assert("TRD_GRP_004"@[10] != "TRD_GRP_005"@[10]);
    }
}

impl<'a> TryFrom<&'a str> for Permission {
    type Error = ParseError;

    fn try_from(s: &'a str) -> (r: Result<Permission, ParseError>) {
        Permission::from_str(s)
    }
}

impl<'a> vstd::std_specs::convert::TryFromSpecImpl<&'a str> for Permission {
    open spec fn obeys_try_from_spec() -> bool {
        true
    }

    open spec fn try_from_spec(s: &'a str) -> Result<Permission, ParseError> {
        match Permission::named(s@) {
            Some(v) => Ok(v),
            None => Err(ParseError),
        }
    }
}

} // verus!
