//! The error object of the exchange.

use crate::api::client::json::{field, get_field, FromJson, Json};
use crate::schemes::spot::trade::TransactionAck;
use vstd::prelude::*;

verus! {

/// What the exchange answers in place of a payload: a code and a message.
#[derive(Clone, Debug)]
pub struct Error {
    pub code: i64,
    pub msg: String,
}

/// An object matches where it has every member of the shape, each of its
/// own kind; what else it holds is ignored.
impl FromJson for Error {
    open spec fn decoded(json: Json) -> Option<Error> {
        let code = field::<i64>(json, "code"@);
        let msg = field::<String>(json, "msg"@);
        if code is Some && msg is Some {
            Some(
                Error {
                    code: code->0,
                    msg: msg->0,
                },
            )
        } else {
            None
        }
    }

    fn from_json(json: &Json) -> (r: Option<Error>) {
        let code = get_field::<i64>(json, "code")?;
        let msg = get_field::<String>(json, "msg")?;
        Some(Error { code, msg })
    }
}

/// What became of the new order of a request that cancels one order and
/// places another.
#[derive(Clone, Debug)]
pub enum NewOrderResponse {
    Success {
        symbol: String,
        order_id: u64,
        order_list_id: i64,
        client_order_id: String,
        transact_time: u64,
    },
    Failure(Error),
    /// The exchange sent `null` in place of an answer.
    NoResponse,
}

/// The acknowledgement of an order is tried first, then an error object;
/// `null` is no answer at all.
impl FromJson for NewOrderResponse {
    open spec fn decoded(json: Json) -> Option<NewOrderResponse> {
        match TransactionAck::decoded(json) {
            Some(ack) => Some(
                NewOrderResponse::Success {
                    symbol: ack.symbol,
                    order_id: ack.order_id,
                    order_list_id: ack.order_list_id,
                    client_order_id: ack.client_order_id,
                    transact_time: ack.transact_time,
                },
            ),
            None => match Error::decoded(json) {
                Some(error) => Some(NewOrderResponse::Failure(error)),
                None => if json is Null {
                    Some(NewOrderResponse::NoResponse)
                } else {
                    None
                },
            },
        }
    }

    fn from_json(json: &Json) -> (r: Option<NewOrderResponse>) {
        match TransactionAck::from_json(json) {
            Some(ack) => Some(
                NewOrderResponse::Success {
                    symbol: ack.symbol,
                    order_id: ack.order_id,
                    order_list_id: ack.order_list_id,
                    client_order_id: ack.client_order_id,
                    transact_time: ack.transact_time,
                },
            ),
            None => match Error::from_json(json) {
                Some(error) => Some(NewOrderResponse::Failure(error)),
                None => match json {
                    Json::Null => Some(NewOrderResponse::NoResponse),
                    _ => None,
                },
            },
        }
    }
}

} // verus!
