//! What a caller of the trading endpoints needs besides the client.

pub use crate::schemes::spot::trade::{AccountTradesReq, CancelOrderReq, OrderIdOrClientOrderId,
    OrderSide};
