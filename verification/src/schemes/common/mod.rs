//! Shapes that all markets share.

pub mod general;

use crate::api::client::json::{field, get_field, FromJson, Json};
use vstd::prelude::*;

verus! {

/// The answer to a ping: an object without members.
#[derive(Clone, Debug)]
pub struct Pong {}

/// Only an object without any member matches.
impl FromJson for Pong {
    open spec fn decoded(json: Json) -> Option<Pong> {
        if json.member_count() == Some(0nat) {
            Some(Pong {  })
        } else {
            None
        }
    }

    fn from_json(json: &Json) -> (r: Option<Pong>) {
        if json.is_empty_object() {
            Some(Pong {  })
        } else {
            None
        }
    }
}

/// The time of the server, in milliseconds since the epoch.
#[derive(Clone, Debug)]
pub struct ServerTime {
    pub server_time: u64,
}

/// An object matches where it has every member of the shape, each of its
/// own kind; what else it holds is ignored.
impl FromJson for ServerTime {
    open spec fn decoded(json: Json) -> Option<ServerTime> {
        let server_time = field::<u64>(json, "serverTime"@);
        if server_time is Some {
            Some(
                ServerTime {
                    server_time: server_time->0,
                },
            )
        } else {
            None
        }
    }

    fn from_json(json: &Json) -> (r: Option<ServerTime>) {
        let server_time = get_field::<u64>(json, "serverTime")?;
        Some(ServerTime { server_time })
    }
}

} // verus!
