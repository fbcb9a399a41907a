//! The exchange's vocabularies: the names and limits that requests and
//! responses are written in.

pub mod futures_common;
pub mod futures_dapi;
pub mod futures_fapi;
pub mod spot;

use vstd::prelude::*;

verus! {

/// No variant has the given name.
#[derive(Clone, Copy, Debug, PartialEq, Eq, Structural)]
pub struct ParseError;

} // verus!
