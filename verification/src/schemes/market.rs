//! Market data as the first client asks for it.

use vstd::prelude::*;

verus! {

/// The depths at which the first client asks for an order book.
#[derive(Copy, Clone, Debug, PartialEq, Eq, Structural)]
pub enum DepthLimit {
    Limit5,
    Limit10,
    Limit20,
    Limit50,
    Limit100,
    Limit500,
    Limit1000,
    Limit5000,
}

impl DepthLimit {
    /// The number of levels.
    pub open spec fn value(self) -> u16 {
        match self {
            DepthLimit::Limit5 => 5,
            DepthLimit::Limit10 => 10,
            DepthLimit::Limit20 => 20,
            DepthLimit::Limit50 => 50,
            DepthLimit::Limit100 => 100,
            DepthLimit::Limit500 => 500,
            DepthLimit::Limit1000 => 1000,
            DepthLimit::Limit5000 => 5000,
        }
    }

    pub fn to_u16(self) -> (levels: u16)
        ensures
            levels == self.value(),
    {
        match self {
            DepthLimit::Limit5 => 5,
            DepthLimit::Limit10 => 10,
            DepthLimit::Limit20 => 20,
            DepthLimit::Limit50 => 50,
            DepthLimit::Limit100 => 100,
            DepthLimit::Limit500 => 500,
            DepthLimit::Limit1000 => 1000,
            DepthLimit::Limit5000 => 5000,
        }
    }
}

} // verus!
