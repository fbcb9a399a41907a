//! Limits of the spot market.

use crate::api::client::json::{ranged, FromJson, Json};
use crate::api::client::number::{format_integer, int_text, lemma_integer_of_text};
use crate::api::client::text::str_eq;
use crate::types::ParseError;
use vstd::prelude::*;

verus! {

/// The depth at which an order book is asked for: one of the depths that the
/// exchange names, or any other number of levels. Beyond 5000 levels the
/// exchange answers with 5000.
#[derive(Copy, Clone, Debug, PartialEq, Eq, Structural)]
pub enum DepthLimit {
    Limit(u16),
    Limit100,
    Limit500,
    Limit1000,
    Limit5000,
}

impl Default for DepthLimit {
    fn default() -> (limit: DepthLimit)
        ensures
            limit == DepthLimit::Limit100,
    {
        DepthLimit::Limit100
    }
}

impl DepthLimit {
    /// The number of levels.
    pub open spec fn value(self) -> u16 {
        match self {
            DepthLimit::Limit(limit) => limit,
            DepthLimit::Limit100 => 100,
            DepthLimit::Limit500 => 500,
            DepthLimit::Limit1000 => 1000,
            DepthLimit::Limit5000 => 5000,
        }
    }

    /// The depth of a number of levels: the named depth where there is one
    /// for that number.
    pub open spec fn of(levels: u16) -> DepthLimit {
        if levels == 100 {
            DepthLimit::Limit100
        } else if levels == 500 {
            DepthLimit::Limit500
        } else if levels == 1000 {
            DepthLimit::Limit1000
        } else if levels == 5000 {
            DepthLimit::Limit5000
        } else {
            DepthLimit::Limit(levels)
        }
    }

    /// Whether the depth is written in the one way that decoding produces:
    /// a number that has a name is written by its name.
    pub open spec fn is_canonical(self) -> bool {
        match self {
            DepthLimit::Limit(limit) => limit != 100 && limit != 500 && limit != 1000 && limit
                != 5000,
            _ => true,
        }
    }

    pub fn request_weight(&self) -> (weight: RequestWeight)
        ensures
            weight == RequestWeight::of(self.value()),
    {
        RequestWeight::from(*self)
    }

    /// The depth of a number of levels, as it is decoded.
    pub fn from_u16(levels: u16) -> (limit: DepthLimit)
        ensures
            limit == DepthLimit::of(levels),
    {
        match levels {
            100 => DepthLimit::Limit100,
            500 => DepthLimit::Limit500,
            1000 => DepthLimit::Limit1000,
            5000 => DepthLimit::Limit5000,
            _ => DepthLimit::Limit(levels),
        }
    }

    /// Encoding what was decoded gives the number back.
    pub proof fn lemma_value_of(levels: u16)
        ensures
            DepthLimit::of(levels).value() == levels,
            DepthLimit::of(levels).is_canonical(),
    {
    }

    /// Decoding what was encoded gives the depth back, for a depth in
    /// canonical form.
    pub proof fn lemma_of_value(self)
        requires
            self.is_canonical(),
        ensures
            DepthLimit::of(self.value()) == self,
    {
    }
}

/// A depth is decoded from a number of 16 bits.
impl FromJson for DepthLimit {
    open spec fn decoded(json: Json) -> Option<DepthLimit> {
        match ranged(json.integer(), 0, u16::MAX as int) {
            Some(levels) => Some(DepthLimit::of(levels as u16)),
            None => None,
        }
    }

    fn from_json(json: &Json) -> (r: Option<DepthLimit>) {
        match json.as_u16() {
            Some(levels) => Some(DepthLimit::from_u16(levels)),
            None => None,
        }
    }
}

impl DepthLimit {
    /// The depth as JSON: its number of levels.
    pub fn to_json(&self) -> (json: Json)
        ensures
            json matches Json::Number(text) && text@ == int_text(self.value() as int),
    {
        Json::Number(format_integer(u16::from(*self) as i128))
    }

    /// What is encoded decodes to the depth of the same number of levels:
    /// back to the same depth, where that depth is in canonical form.
    pub proof fn lemma_decoded_encoded(self, json: Json)
        requires
            json matches Json::Number(text) && text@ == int_text(self.value() as int),
        ensures
            DepthLimit::decoded(json) == Some(DepthLimit::of(self.value())),
            self.is_canonical() ==> DepthLimit::decoded(json) == Some(self),
    {
        lemma_integer_of_text(self.value() as int);
    }
}

impl From<DepthLimit> for u16 {
    fn from(depth_limit: DepthLimit) -> (levels: u16) {
        match depth_limit {
            DepthLimit::Limit(limit) => limit,
            DepthLimit::Limit100 => 100,
            DepthLimit::Limit500 => 500,
            DepthLimit::Limit1000 => 1000,
            DepthLimit::Limit5000 => 5000,
        }
    }
}

impl vstd::std_specs::convert::FromSpecImpl<DepthLimit> for u16 {
    open spec fn obeys_from_spec() -> bool {
        true
    }

    open spec fn from_spec(depth_limit: DepthLimit) -> u16 {
        depth_limit.value()
    }
}

/// What a request costs against the rate limit.
#[derive(Copy, Clone, Debug, PartialEq, Eq, Structural)]
pub enum RequestWeight {
    Weight0,
    Weight1,
    Weight5,
    Weight10,
    Weight50,
}

impl RequestWeight {
    /// The weight as a number.
    pub open spec fn value(self) -> u8 {
        match self {
            RequestWeight::Weight0 => 0,
            RequestWeight::Weight1 => 1,
            RequestWeight::Weight5 => 5,
            RequestWeight::Weight10 => 10,
            RequestWeight::Weight50 => 50,
        }
    }

    /// What an order book of a number of levels costs.
    pub open spec fn of(levels: u16) -> RequestWeight {
        if levels == 0 {
            RequestWeight::Weight0
        } else if levels <= 100 {
            RequestWeight::Weight1
        } else if levels <= 500 {
            RequestWeight::Weight5
        } else if levels <= 1000 {
            RequestWeight::Weight10
        } else {
            RequestWeight::Weight50
        }
    }
}

impl From<RequestWeight> for u8 {
    fn from(weight: RequestWeight) -> (value: u8) {
        match weight {
            RequestWeight::Weight0 => 0,
            RequestWeight::Weight1 => 1,
            RequestWeight::Weight5 => 5,
            RequestWeight::Weight10 => 10,
            RequestWeight::Weight50 => 50,
        }
    }
}

impl vstd::std_specs::convert::FromSpecImpl<RequestWeight> for u8 {
    open spec fn obeys_from_spec() -> bool {
        true
    }

    open spec fn from_spec(weight: RequestWeight) -> u8 {
        weight.value()
    }
}

impl From<u16> for RequestWeight {
    fn from(limit: u16) -> (weight: RequestWeight) {
        if limit == 0 {
            RequestWeight::Weight0
        } else if limit <= 100 {
            RequestWeight::Weight1
        } else if limit <= 500 {
            RequestWeight::Weight5
        } else if limit <= 1000 {
            RequestWeight::Weight10
        } else {
            RequestWeight::Weight50
        }
    }
}

impl vstd::std_specs::convert::FromSpecImpl<u16> for RequestWeight {
    open spec fn obeys_from_spec() -> bool {
        true
    }

    open spec fn from_spec(limit: u16) -> RequestWeight {
        RequestWeight::of(limit)
    }
}

impl From<DepthLimit> for RequestWeight {
    fn from(limit: DepthLimit) -> (weight: RequestWeight) {
        match limit {
            DepthLimit::Limit100 => RequestWeight::Weight1,
            DepthLimit::Limit500 => RequestWeight::Weight5,
            DepthLimit::Limit1000 => RequestWeight::Weight10,
            DepthLimit::Limit5000 => RequestWeight::Weight50,
            DepthLimit::Limit(limit) => RequestWeight::from(limit),
        }
    }
}

impl vstd::std_specs::convert::FromSpecImpl<DepthLimit> for RequestWeight {
    open spec fn obeys_from_spec() -> bool {
        true
    }

    open spec fn from_spec(limit: DepthLimit) -> RequestWeight {
        RequestWeight::of(limit.value())
    }
}

/// How often a depth stream sends an update.
#[derive(Copy, Clone, Debug, PartialEq, Eq, Structural)]
pub enum DepthUpdateSpeedMs {
    Speed100,
    Speed1000,
}

impl DepthUpdateSpeedMs {
    /// The interval in milliseconds.
    pub open spec fn value(self) -> u16 {
        match self {
            DepthUpdateSpeedMs::Speed100 => 100,
            DepthUpdateSpeedMs::Speed1000 => 1000,
        }
    }
}

impl From<DepthUpdateSpeedMs> for u16 {
    fn from(update_speed: DepthUpdateSpeedMs) -> (ms: u16) {
        match update_speed {
            DepthUpdateSpeedMs::Speed100 => 100,
            DepthUpdateSpeedMs::Speed1000 => 1000,
        }
    }
}

impl vstd::std_specs::convert::FromSpecImpl<DepthUpdateSpeedMs> for u16 {
    open spec fn obeys_from_spec() -> bool {
        true
    }

    open spec fn from_spec(update_speed: DepthUpdateSpeedMs) -> u16 {
        update_speed.value()
    }
}

/// The widths of a candlestick.
#[derive(Copy, Clone, Debug, PartialEq, Eq, Structural)]
pub enum KLinesInterval {
    Second,
    Minute,
    Minutes3,
    Minutes5,
    Minutes15,
    Minutes30,
    Hour,
    Hours2,
    Hours4,
    Hours6,
    Hours8,
    Hours12,
    Day,
    Days3,
    Weak,
    Month,
}

impl KLinesInterval {
    /// The width as the exchange writes it.
    pub open spec fn name(self) -> Seq<char> {
        match self {
            KLinesInterval::Second => "1s"@,
            KLinesInterval::Minute => "1m"@,
            KLinesInterval::Minutes3 => "3m"@,
            KLinesInterval::Minutes5 => "5m"@,
            KLinesInterval::Minutes15 => "15m"@,
            KLinesInterval::Minutes30 => "30m"@,
            KLinesInterval::Hour => "1h"@,
            KLinesInterval::Hours2 => "2h"@,
            KLinesInterval::Hours4 => "4h"@,
            KLinesInterval::Hours6 => "6h"@,
            KLinesInterval::Hours8 => "8h"@,
            KLinesInterval::Hours12 => "12h"@,
            KLinesInterval::Day => "1d"@,
            KLinesInterval::Days3 => "3d"@,
            KLinesInterval::Weak => "1w"@,
            KLinesInterval::Month => "1M"@,
        }
    }

    /// The variant of a name, if it is the name of one.
    pub open spec fn named(name: Seq<char>) -> Option<KLinesInterval> {
        if name == "1s"@ {
            Some(KLinesInterval::Second)
        } else if name == "1m"@ {
            Some(KLinesInterval::Minute)
        } else if name == "3m"@ {
            Some(KLinesInterval::Minutes3)
        } else if name == "5m"@ {
            Some(KLinesInterval::Minutes5)
        } else if name == "15m"@ {
            Some(KLinesInterval::Minutes15)
        } else if name == "30m"@ {
            Some(KLinesInterval::Minutes30)
        } else if name == "1h"@ {
            Some(KLinesInterval::Hour)
        } else if name == "2h"@ {
            Some(KLinesInterval::Hours2)
        } else if name == "4h"@ {
            Some(KLinesInterval::Hours4)
        } else if name == "6h"@ {
            Some(KLinesInterval::Hours6)
        } else if name == "8h"@ {
            Some(KLinesInterval::Hours8)
        } else if name == "12h"@ {
            Some(KLinesInterval::Hours12)
        } else if name == "1d"@ {
            Some(KLinesInterval::Day)
        } else if name == "3d"@ {
            Some(KLinesInterval::Days3)
        } else if name == "1w"@ {
            Some(KLinesInterval::Weak)
        } else if name == "1M"@ {
            Some(KLinesInterval::Month)
        } else {
            None
        }
    }

    #[inline]
    pub fn as_str(&self) -> (s: &'static str)
        ensures
            s@ == self.name(),
    {
        match self {
            KLinesInterval::Second => "1s",
            KLinesInterval::Minute => "1m",
            KLinesInterval::Minutes3 => "3m",
            KLinesInterval::Minutes5 => "5m",
            KLinesInterval::Minutes15 => "15m",
            KLinesInterval::Minutes30 => "30m",
            KLinesInterval::Hour => "1h",
            KLinesInterval::Hours2 => "2h",
            KLinesInterval::Hours4 => "4h",
            KLinesInterval::Hours6 => "6h",
            KLinesInterval::Hours8 => "8h",
            KLinesInterval::Hours12 => "12h",
            KLinesInterval::Day => "1d",
            KLinesInterval::Days3 => "3d",
            KLinesInterval::Weak => "1w",
            KLinesInterval::Month => "1M",
        }
    }

    /// The variant with the given name.
    pub fn from_str(s: &str) -> (r: Result<KLinesInterval, ParseError>)
        ensures
            r == match KLinesInterval::named(s@) {
                Some(v) => Ok::<KLinesInterval, ParseError>(v),
                None => Err::<KLinesInterval, ParseError>(ParseError),
            },
    {
        if str_eq(s, "1s") {
            Ok(KLinesInterval::Second)
        } else if str_eq(s, "1m") {
            Ok(KLinesInterval::Minute)
        } else if str_eq(s, "3m") {
            Ok(KLinesInterval::Minutes3)
        } else if str_eq(s, "5m") {
            Ok(KLinesInterval::Minutes5)
        } else if str_eq(s, "15m") {
            Ok(KLinesInterval::Minutes15)
        } else if str_eq(s, "30m") {
            Ok(KLinesInterval::Minutes30)
        } else if str_eq(s, "1h") {
            Ok(KLinesInterval::Hour)
        } else if str_eq(s, "2h") {
            Ok(KLinesInterval::Hours2)
        } else if str_eq(s, "4h") {
            Ok(KLinesInterval::Hours4)
        } else if str_eq(s, "6h") {
            Ok(KLinesInterval::Hours6)
        } else if str_eq(s, "8h") {
            Ok(KLinesInterval::Hours8)
        } else if str_eq(s, "12h") {
            Ok(KLinesInterval::Hours12)
        } else if str_eq(s, "1d") {
            Ok(KLinesInterval::Day)
        } else if str_eq(s, "3d") {
            Ok(KLinesInterval::Days3)
        } else if str_eq(s, "1w") {
            Ok(KLinesInterval::Weak)
        } else if str_eq(s, "1M") {
            Ok(KLinesInterval::Month)
        } else {
            Err(ParseError)
        }
    }

    /// Every variant is found again by its name: no two share one.
    pub proof fn lemma_named_name(self)
        ensures
            KLinesInterval::named(self.name()) == Some(self),
    {
        reveal_strlit("1s");
        reveal_strlit("1m");
        reveal_strlit("3m");
        reveal_strlit("5m");
        reveal_strlit("15m");
        reveal_strlit("30m");
        reveal_strlit("1h");
        reveal_strlit("2h");
        reveal_strlit("4h");
        reveal_strlit("6h");
        reveal_strlit("8h");
        reveal_strlit("12h");
        reveal_strlit("1d");
        reveal_strlit("3d");
        reveal_strlit("1w");
        reveal_strlit("1M");
        assert("1s"@.len() == 2);
        assert("1m"@.len() == 2);
        assert("3m"@.len() == 2);
        assert("5m"@.len() == 2);
        assert("15m"@.len() == 3);
        assert("30m"@.len() == 3);
        assert("1h"@.len() == 2);
        assert("2h"@.len() == 2);
        assert("4h"@.len() == 2);
        assert("6h"@.len() == 2);
        assert("8h"@.len() == 2);
        assert("12h"@.len() == 3);
        assert("1d"@.len() == 2);
        assert("3d"@.len() == 2);
        assert("1w"@.len() == 2);
        assert("1M"@.len() == 2);
        assert("1s"@[1] != "1m"@[1]);
        assert("1s"@[0] != "3m"@[0]);
        assert("1s"@[0] != "5m"@[0]);
        assert("1s"@[1] != "1h"@[1]);
        assert("1s"@[0] != "2h"@[0]);
        assert("1s"@[0] != "4h"@[0]);
        assert("1s"@[0] != "6h"@[0]);
        assert("1s"@[0] != "8h"@[0]);
        assert("1s"@[1] != "1d"@[1]);
        assert("1s"@[0] != "3d"@[0]);
        assert("1s"@[1] != "1w"@[1]);
        assert("1s"@[1] != "1M"@[1]);
        assert("1m"@[0] != "3m"@[0]);
        assert("1m"@[0] != "5m"@[0]);
        assert("1m"@[1] != "1h"@[1]);
        assert("1m"@[0] != "2h"@[0]);
        assert("1m"@[0] != "4h"@[0]);
        assert("1m"@[0] != "6h"@[0]);
        assert("1m"@[0] != "8h"@[0]);
        assert("1m"@[1] != "1d"@[1]);
        assert("1m"@[0] != "3d"@[0]);
        assert("1m"@[1] != "1w"@[1]);
        assert("1m"@[1] != "1M"@[1]);
        assert("3m"@[0] != "5m"@[0]);
        assert("3m"@[0] != "1h"@[0]);
        assert("3m"@[0] != "2h"@[0]);
        assert("3m"@[0] != "4h"@[0]);
        assert("3m"@[0] != "6h"@[0]);
        assert("3m"@[0] != "8h"@[0]);
        assert("3m"@[0] != "1d"@[0]);
        assert("3m"@[1] != "3d"@[1]);
        assert("3m"@[0] != "1w"@[0]);
        assert("3m"@[0] != "1M"@[0]);
        assert("5m"@[0] != "1h"@[0]);
        assert("5m"@[0] != "2h"@[0]);
        assert("5m"@[0] != "4h"@[0]);
        assert("5m"@[0] != "6h"@[0]);
        assert("5m"@[0] != "8h"@[0]);
        assert("5m"@[0] != "1d"@[0]);
        assert("5m"@[0] != "3d"@[0]);
        assert("5m"@[0] != "1w"@[0]);
        assert("5m"@[0] != "1M"@[0]);
        assert("15m"@[0] != "30m"@[0]);
        assert("15m"@[1] != "12h"@[1]);
        assert("30m"@[0] != "12h"@[0]);
        assert("1h"@[0] != "2h"@[0]);
        assert("1h"@[0] != "4h"@[0]);
        assert("1h"@[0] != "6h"@[0]);
        assert("1h"@[0] != "8h"@[0]);
        assert("1h"@[1] != "1d"@[1]);
        assert("1h"@[0] != "3d"@[0]);
        assert("1h"@[1] != "1w"@[1]);
        assert("1h"@[1] != "1M"@[1]);
        assert("2h"@[0] != "4h"@[0]);
        assert("2h"@[0] != "6h"@[0]);
        assert("2h"@[0] != "8h"@[0]);
        assert("2h"@[0] != "1d"@[0]);
        assert("2h"@[0] != "3d"@[0]);
        assert("2h"@[0] != "1w"@[0]);
        assert("2h"@[0] != "1M"@[0]);
        assert("4h"@[0] != "6h"@[0]);
        assert("4h"@[0] != "8h"@[0]);
        assert("4h"@[0] != "1d"@[0]);
        assert("4h"@[0] != "3d"@[0]);
        assert("4h"@[0] != "1w"@[0]);
        assert("4h"@[0] != "1M"@[0]);
        assert("6h"@[0] != "8h"@[0]);
        assert("6h"@[0] != "1d"@[0]);
        assert("6h"@[0] != "3d"@[0]);
        assert("6h"@[0] != "1w"@[0]);
        assert("6h"@[0] != "1M"@[0]);
        assert("8h"@[0] != "1d"@[0]);
        assert("8h"@[0] != "3d"@[0]);
        assert("8h"@[0] != "1w"@[0]);
        assert("8h"@[0] != "1M"@[0]);
        assert("1d"@[0] != "3d"@[0]);
        assert("1d"@[1] != "1w"@[1]);
        assert("1d"@[1] != "1M"@[1]);
        assert("3d"@[0] != "1w"@[0]);
        assert("3d"@[0] != "1M"@[0]);
        assert("1w"@[1] != "1M"@[1]);
    }
}

impl<'a> TryFrom<&'a str> for KLinesInterval {
    type Error = ParseError;

    fn try_from(s: &'a str) -> (r: Result<KLinesInterval, ParseError>) {
        KLinesInterval::from_str(s)
    }
}

impl<'a> vstd::std_specs::convert::TryFromSpecImpl<&'a str> for KLinesInterval {
    open spec fn obeys_try_from_spec() -> bool {
        true
    }

    open spec fn try_from_spec(s: &'a str) -> Result<KLinesInterval, ParseError> {
        match KLinesInterval::named(s@) {
            Some(v) => Ok(v),
            None => Err(ParseError),
        }
    }
}

} // verus!
