//! Limits of the futures markets.

use vstd::prelude::*;

verus! {

/// The depths at which an order book can be asked for.
#[derive(Copy, Clone, Debug, PartialEq, Eq, Structural)]
pub enum DepthLimit {
    Limit5,
    Limit10,
    Limit20,
    Limit50,
    Limit100,
    Limit500,
    Limit1000,
}

impl Default for DepthLimit {
    fn default() -> (limit: DepthLimit)
        ensures
            limit == DepthLimit::Limit500,
    {
        DepthLimit::Limit500
    }
}

impl DepthLimit {
    /// The number of levels.
    pub open spec fn value(self) -> u16 {
        match self {
            DepthLimit::Limit5 => 5,
            DepthLimit::Limit10 => 10,
            DepthLimit::Limit20 => 20,
            DepthLimit::Limit50 => 50,
            DepthLimit::Limit100 => 100,
            DepthLimit::Limit500 => 500,
            DepthLimit::Limit1000 => 1000,
        }
    }

    /// What a request for this depth costs.
    pub open spec fn weight(self) -> RequestWeight {
        if self.value() <= 50 {
            RequestWeight::Weight2
        } else if self.value() == 100 {
            RequestWeight::Weight5
        } else if self.value() == 500 {
            RequestWeight::Weight10
        } else {
            RequestWeight::Weight20
        }
    }

    /// The depth of a number of levels, where the exchange offers that depth.
    pub open spec fn of(levels: u16) -> Option<DepthLimit> {
        if levels == 5 {
            Some(DepthLimit::Limit5)
        } else if levels == 10 {
            Some(DepthLimit::Limit10)
        } else if levels == 20 {
            Some(DepthLimit::Limit20)
        } else if levels == 50 {
            Some(DepthLimit::Limit50)
        } else if levels == 100 {
            Some(DepthLimit::Limit100)
        } else if levels == 500 {
            Some(DepthLimit::Limit500)
        } else if levels == 1000 {
            Some(DepthLimit::Limit1000)
        } else {
            None
        }
    }

    pub fn request_weight(&self) -> (weight: RequestWeight)
        ensures
            weight == self.weight(),
    {
        RequestWeight::from(*self)
    }

    /// The depth of a number of levels; `None` for a number that is no depth.
    pub fn from_u16(levels: u16) -> (limit: Option<DepthLimit>)
        ensures
            limit == DepthLimit::of(levels),
    {
        match levels {
            5 => Some(DepthLimit::Limit5),
            10 => Some(DepthLimit::Limit10),
            20 => Some(DepthLimit::Limit20),
            50 => Some(DepthLimit::Limit50),
            100 => Some(DepthLimit::Limit100),
            500 => Some(DepthLimit::Limit500),
            1000 => Some(DepthLimit::Limit1000),
            _ => None,
        }
    }

    /// A depth is found again by its number of levels.
    pub proof fn lemma_of_value(self)
        ensures
            DepthLimit::of(self.value()) == Some(self),
    {
    }
}

impl From<DepthLimit> for u16 {
    fn from(limit: DepthLimit) -> (levels: u16) {
        match limit {
            DepthLimit::Limit5 => 5,
            DepthLimit::Limit10 => 10,
            DepthLimit::Limit20 => 20,
            DepthLimit::Limit50 => 50,
            DepthLimit::Limit100 => 100,
            DepthLimit::Limit500 => 500,
            DepthLimit::Limit1000 => 1000,
        }
    }
}

impl vstd::std_specs::convert::FromSpecImpl<DepthLimit> for u16 {
    open spec fn obeys_from_spec() -> bool {
        true
    }

    open spec fn from_spec(limit: DepthLimit) -> u16 {
        limit.value()
    }
}

/// What a request costs against the rate limit.
#[derive(Copy, Clone, Debug, PartialEq, Eq, Structural)]
pub enum RequestWeight {
    Weight2,
    Weight5,
    Weight10,
    Weight20,
}

impl RequestWeight {
    /// The weight as a number.
    pub open spec fn value(self) -> u8 {
        match self {
            RequestWeight::Weight2 => 2,
            RequestWeight::Weight5 => 5,
            RequestWeight::Weight10 => 10,
            RequestWeight::Weight20 => 20,
        }
    }
}

impl From<RequestWeight> for u8 {
    fn from(weight: RequestWeight) -> (value: u8) {
        match weight {
            RequestWeight::Weight2 => 2,
            RequestWeight::Weight5 => 5,
            RequestWeight::Weight10 => 10,
            RequestWeight::Weight20 => 20,
        }
    }
}

impl vstd::std_specs::convert::FromSpecImpl<RequestWeight> for u8 {
    open spec fn obeys_from_spec() -> bool {
        true
    }

    open spec fn from_spec(weight: RequestWeight) -> u8 {
        weight.value()
    }
}

impl From<DepthLimit> for RequestWeight {
    fn from(limit: DepthLimit) -> (weight: RequestWeight) {
        match limit {
            DepthLimit::Limit5 => RequestWeight::Weight2,
            DepthLimit::Limit10 => RequestWeight::Weight2,
            DepthLimit::Limit20 => RequestWeight::Weight2,
            DepthLimit::Limit50 => RequestWeight::Weight2,
            DepthLimit::Limit100 => RequestWeight::Weight5,
            DepthLimit::Limit500 => RequestWeight::Weight10,
            DepthLimit::Limit1000 => RequestWeight::Weight20,
        }
    }
}

impl vstd::std_specs::convert::FromSpecImpl<DepthLimit> for RequestWeight {
    open spec fn obeys_from_spec() -> bool {
        true
    }

    open spec fn from_spec(limit: DepthLimit) -> RequestWeight {
        limit.weight()
    }
}

/// How often a depth stream sends an update.
#[derive(Copy, Clone, Debug, PartialEq, Eq, Structural)]
pub enum DepthUpdateSpeedMs {
    Speed100,
    Speed250,
    Speed500,
}

impl DepthUpdateSpeedMs {
    /// The interval in milliseconds.
    pub open spec fn value(self) -> u16 {
        match self {
            DepthUpdateSpeedMs::Speed100 => 100,
            DepthUpdateSpeedMs::Speed250 => 250,
            DepthUpdateSpeedMs::Speed500 => 500,
        }
    }
}

impl From<DepthUpdateSpeedMs> for u16 {
    fn from(update_speed: DepthUpdateSpeedMs) -> (ms: u16) {
        match update_speed {
            DepthUpdateSpeedMs::Speed100 => 100,
            DepthUpdateSpeedMs::Speed250 => 250,
            DepthUpdateSpeedMs::Speed500 => 500,
        }
    }
}

impl vstd::std_specs::convert::FromSpecImpl<DepthUpdateSpeedMs> for u16 {
    open spec fn obeys_from_spec() -> bool {
        true
    }

    open spec fn from_spec(update_speed: DepthUpdateSpeedMs) -> u16 {
        update_speed.value()
    }
}

} // verus!
