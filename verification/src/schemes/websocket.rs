//! Events of the streams.

use crate::api::client::json::{field, get_field, FromJson, Json};
use crate::api::client::text::str_eq;
use crate::types::ParseError;
use vstd::prelude::*;

verus! {

/// What happened to an order.
#[derive(Copy, Clone, Debug, PartialEq, Eq, Structural)]
pub enum OrderExecType {
    New,
}

impl OrderExecType {
    /// The name on the wire.
    pub open spec fn name(self) -> Seq<char> {
        match self {
            OrderExecType::New => "NEW"@,
        }
    }

    /// The variant of a name, if it is the name of one.
    pub open spec fn named(name: Seq<char>) -> Option<OrderExecType> {
        if name == "NEW"@ {
            Some(OrderExecType::New)
        } else {
            None
        }
    }

    pub fn as_str(&self) -> (s: &'static str)
        ensures
            s@ == self.name(),
    {
        match self {
            OrderExecType::New => "NEW",
        }
    }

    /// The variant with the given name.
    pub fn from_str(s: &str) -> (r: Result<OrderExecType, ParseError>)
        ensures
            r == match OrderExecType::named(s@) {
                Some(v) => Ok::<OrderExecType, ParseError>(v),
                None => Err::<OrderExecType, ParseError>(ParseError),
            },
    {
        if str_eq(s, "NEW") {
            Ok(OrderExecType::New)
        } else {
            Err(ParseError)
        }
    }

    /// Every variant is found again by its name: no two share one.
    pub proof fn lemma_named_name(self)
        ensures
            OrderExecType::named(self.name()) == Some(self),
    {
        reveal_strlit("NEW");
        assert("NEW"@.len() == 3);
    }
}

/// A string decodes to the variant of that name.
impl FromJson for OrderExecType {
    open spec fn decoded(json: Json) -> Option<OrderExecType> {
        match json.text() {
            Some(text) => match OrderExecType::named(text) {
                Some(v) => Some(v),
                None => None,
            },
            None => None,
        }
    }

    fn from_json(json: &Json) -> (r: Option<OrderExecType>) {
        match json.as_str() {
            Some(text) => match OrderExecType::from_str(text) {
                Ok(v) => Some(v),
                Err(_) => None,
            },
            None => None,
        }
    }
}

/// Why an order was rejected.
#[derive(Copy, Clone, Debug, PartialEq, Eq, Structural)]
pub enum OrderRejectReason {
    /// The order was not rejected.
    NoReason,
}

impl OrderRejectReason {
    /// The name on the wire.
    pub open spec fn name(self) -> Seq<char> {
        match self {
            OrderRejectReason::NoReason => "NONE"@,
        }
    }

    /// The variant of a name, if it is the name of one.
    pub open spec fn named(name: Seq<char>) -> Option<OrderRejectReason> {
        if name == "NONE"@ {
            Some(OrderRejectReason::NoReason)
        } else {
            None
        }
    }

    pub fn as_str(&self) -> (s: &'static str)
        ensures
            s@ == self.name(),
    {
        match self {
            OrderRejectReason::NoReason => "NONE",
        }
    }

    /// The variant with the given name.
    pub fn from_str(s: &str) -> (r: Result<OrderRejectReason, ParseError>)
        ensures
            r == match OrderRejectReason::named(s@) {
                Some(v) => Ok::<OrderRejectReason, ParseError>(v),
                None => Err::<OrderRejectReason, ParseError>(ParseError),
            },
    {
        if str_eq(s, "NONE") {
            Ok(OrderRejectReason::NoReason)
        } else {
            Err(ParseError)
        }
    }

    /// Every variant is found again by its name: no two share one.
    pub proof fn lemma_named_name(self)
        ensures
            OrderRejectReason::named(self.name()) == Some(self),
    {
        reveal_strlit("NONE");
        assert("NONE"@.len() == 4);
    }
}

/// A string decodes to the variant of that name.
impl FromJson for OrderRejectReason {
    open spec fn decoded(json: Json) -> Option<OrderRejectReason> {
        match json.text() {
            Some(text) => match OrderRejectReason::named(text) {
                Some(v) => Some(v),
                None => None,
            },
            None => None,
        }
    }

    fn from_json(json: &Json) -> (r: Option<OrderRejectReason>) {
        match json.as_str() {
            Some(text) => match OrderRejectReason::from_str(text) {
                Ok(v) => Some(v),
                Err(_) => None,
            },
            None => None,
        }
    }
}

/// The states of an order.
#[derive(Copy, Clone, Debug, PartialEq, Eq, Structural)]
pub enum OrderStatus {
    New,
    PartiallyFilled,
    Filled,
    Canceled,
    PendingCancel,
    Rejected,
    Expired,
}

impl OrderStatus {
    /// The name on the wire.
    pub open spec fn name(self) -> Seq<char> {
        match self {
            OrderStatus::New => "NEW"@,
            OrderStatus::PartiallyFilled => "PARTIALLY_FILLED"@,
            OrderStatus::Filled => "FILLED"@,
            OrderStatus::Canceled => "CANCELED"@,
            OrderStatus::PendingCancel => "PENDING_CANCEL"@,
            OrderStatus::Rejected => "REJECTED"@,
            OrderStatus::Expired => "EXPIRED"@,
        }
    }

    /// The variant of a name, if it is the name of one.
    pub open spec fn named(name: Seq<char>) -> Option<OrderStatus> {
        if name == "NEW"@ {
            Some(OrderStatus::New)
        } else if name == "PARTIALLY_FILLED"@ {
            Some(OrderStatus::PartiallyFilled)
        } else if name == "FILLED"@ {
            Some(OrderStatus::Filled)
        } else if name == "CANCELED"@ {
            Some(OrderStatus::Canceled)
        } else if name == "PENDING_CANCEL"@ {
            Some(OrderStatus::PendingCancel)
        } else if name == "REJECTED"@ {
            Some(OrderStatus::Rejected)
        } else if name == "EXPIRED"@ {
            Some(OrderStatus::Expired)
        } else {
            None
        }
    }

    pub fn as_str(&self) -> (s: &'static str)
        ensures
            s@ == self.name(),
    {
        match self {
            OrderStatus::New => "NEW",
            OrderStatus::PartiallyFilled => "PARTIALLY_FILLED",
            OrderStatus::Filled => "FILLED",
            OrderStatus::Canceled => "CANCELED",
            OrderStatus::PendingCancel => "PENDING_CANCEL",
            OrderStatus::Rejected => "REJECTED",
            OrderStatus::Expired => "EXPIRED",
        }
    }

    /// The variant with the given name.
    pub fn from_str(s: &str) -> (r: Result<OrderStatus, ParseError>)
        ensures
            r == match OrderStatus::named(s@) {
                Some(v) => Ok::<OrderStatus, ParseError>(v),
                None => Err::<OrderStatus, ParseError>(ParseError),
            },
    {
        if str_eq(s, "NEW") {
            Ok(OrderStatus::New)
        } else if str_eq(s, "PARTIALLY_FILLED") {
            Ok(OrderStatus::PartiallyFilled)
        } else if str_eq(s, "FILLED") {
            Ok(OrderStatus::Filled)
        } else if str_eq(s, "CANCELED") {
            Ok(OrderStatus::Canceled)
        } else if str_eq(s, "PENDING_CANCEL") {
            Ok(OrderStatus::PendingCancel)
        } else if str_eq(s, "REJECTED") {
            Ok(OrderStatus::Rejected)
        } else if str_eq(s, "EXPIRED") {
            Ok(OrderStatus::Expired)
        } else {
            Err(ParseError)
        }
    }

    /// Every variant is found again by its name: no two share one.
    pub proof fn lemma_named_name(self)
        ensures
            OrderStatus::named(self.name()) == Some(self),
    {
        reveal_strlit("NEW");
        reveal_strlit("PARTIALLY_FILLED");
        reveal_strlit("FILLED");
        reveal_strlit("CANCELED");
        reveal_strlit("PENDING_CANCEL");
        reveal_strlit("REJECTED");
        reveal_strlit("EXPIRED");
        assert("NEW"@.len() == 3);
        assert("PARTIALLY_FILLED"@.len() == 16);
        assert("FILLED"@.len() == 6);
        assert("CANCELED"@.len() == 8);
        assert("PENDING_CANCEL"@.len() == 14);
        assert("REJECTED"@.len() == 8);
        assert("EXPIRED"@.len() == 7);
        assert("CANCELED"@[0] != "REJECTED"@[0]);
    }
}

/// A string decodes to the variant of that name.
impl FromJson for OrderStatus {
    open spec fn decoded(json: Json) -> Option<OrderStatus> {
        match json.text() {
            Some(text) => match OrderStatus::named(text) {
                Some(v) => Some(v),
                None => None,
            },
            None => None,
        }
    }

    fn from_json(json: &Json) -> (r: Option<OrderStatus>) {
        match json.as_str() {
            Some(text) => match OrderStatus::from_str(text) {
                Ok(v) => Some(v),
                Err(_) => None,
            },
            None => None,
        }
    }
}

/// The kinds of order.
#[derive(Copy, Clone, Debug, PartialEq, Eq, Structural)]
pub enum OrderType {
    Market,
    Limit,
    StopLoss,
    StopLossLimit,
    TakeProfit,
    TakeProfitLimit,
    LimitMaker,
}

impl OrderType {
    /// The name on the wire.
    pub open spec fn name(self) -> Seq<char> {
        match self {
            OrderType::Market => "MARKET"@,
            OrderType::Limit => "LIMIT"@,
            OrderType::StopLoss => "STOP_LOSS"@,
            OrderType::StopLossLimit => "STOP_LOSS_LIMIT"@,
            OrderType::TakeProfit => "TAKE_PROFIT"@,
            OrderType::TakeProfitLimit => "TAKE_PROFIT_LIMIT"@,
            OrderType::LimitMaker => "LIMIT_MAKER"@,
        }
    }

    /// The variant of a name, if it is the name of one.
    pub open spec fn named(name: Seq<char>) -> Option<OrderType> {
        if name == "MARKET"@ {
            Some(OrderType::Market)
        } else if name == "LIMIT"@ {
            Some(OrderType::Limit)
        } else if name == "STOP_LOSS"@ {
            Some(OrderType::StopLoss)
        } else if name == "STOP_LOSS_LIMIT"@ {
            Some(OrderType::StopLossLimit)
        } else if name == "TAKE_PROFIT"@ {
            Some(OrderType::TakeProfit)
        } else if name == "TAKE_PROFIT_LIMIT"@ {
            Some(OrderType::TakeProfitLimit)
        } else if name == "LIMIT_MAKER"@ {
            Some(OrderType::LimitMaker)
        } else {
            None
        }
    }

    pub fn as_str(&self) -> (s: &'static str)
        ensures
            s@ == self.name(),
    {
        match self {
            OrderType::Market => "MARKET",
            OrderType::Limit => "LIMIT",
            OrderType::StopLoss => "STOP_LOSS",
            OrderType::StopLossLimit => "STOP_LOSS_LIMIT",
            OrderType::TakeProfit => "TAKE_PROFIT",
            OrderType::TakeProfitLimit => "TAKE_PROFIT_LIMIT",
            OrderType::LimitMaker => "LIMIT_MAKER",
        }
    }

    /// The variant with the given name.
    pub fn from_str(s: &str) -> (r: Result<OrderType, ParseError>)
        ensures
            r == match OrderType::named(s@) {
                Some(v) => Ok::<OrderType, ParseError>(v),
                None => Err::<OrderType, ParseError>(ParseError),
            },
    {
        if str_eq(s, "MARKET") {
            Ok(OrderType::Market)
        } else if str_eq(s, "LIMIT") {
            Ok(OrderType::Limit)
        } else if str_eq(s, "STOP_LOSS") {
            Ok(OrderType::StopLoss)
        } else if str_eq(s, "STOP_LOSS_LIMIT") {
            Ok(OrderType::StopLossLimit)
        } else if str_eq(s, "TAKE_PROFIT") {
            Ok(OrderType::TakeProfit)
        } else if str_eq(s, "TAKE_PROFIT_LIMIT") {
            Ok(OrderType::TakeProfitLimit)
        } else if str_eq(s, "LIMIT_MAKER") {
            Ok(OrderType::LimitMaker)
        } else {
            Err(ParseError)
        }
    }

    /// Every variant is found again by its name: no two share one.
    pub proof fn lemma_named_name(self)
        ensures
            OrderType::named(self.name()) == Some(self),
    {
        reveal_strlit("MARKET");
        reveal_strlit("LIMIT");
        reveal_strlit("STOP_LOSS");
        reveal_strlit("STOP_LOSS_LIMIT");
        reveal_strlit("TAKE_PROFIT");
        reveal_strlit("TAKE_PROFIT_LIMIT");
        reveal_strlit("LIMIT_MAKER");
        assert("MARKET"@.len() == 6);
        assert("LIMIT"@.len() == 5);
        assert("STOP_LOSS"@.len() == 9);
        assert("STOP_LOSS_LIMIT"@.len() == 15);
        assert("TAKE_PROFIT"@.len() == 11);
        assert("TAKE_PROFIT_LIMIT"@.len() == 17);
        assert("LIMIT_MAKER"@.len() == 11);
        assert("TAKE_PROFIT"@[0] != "LIMIT_MAKER"@[0]);
    }
}

/// A string decodes to the variant of that name.
impl FromJson for OrderType {
    open spec fn decoded(json: Json) -> Option<OrderType> {
        match json.text() {
            Some(text) => match OrderType::named(text) {
                Some(v) => Some(v),
                None => None,
            },
            None => None,
        }
    }

    fn from_json(json: &Json) -> (r: Option<OrderType>) {
        match json.as_str() {
            Some(text) => match OrderType::from_str(text) {
                Ok(v) => Some(v),
                Err(_) => None,
            },
            None => None,
        }
    }
}

/// The side of an order.
#[derive(Copy, Clone, Debug, PartialEq, Eq, Structural)]
pub enum Side {
    Buy,
    Sell,
}

impl Side {
    /// The name on the wire.
    pub open spec fn name(self) -> Seq<char> {
        match self {
            Side::Buy => "BUY"@,
            Side::Sell => "SELL"@,
        }
    }

    /// The variant of a name, if it is the name of one.
    pub open spec fn named(name: Seq<char>) -> Option<Side> {
        if name == "BUY"@ {
            Some(Side::Buy)
        } else if name == "SELL"@ {
            Some(Side::Sell)
        } else {
            None
        }
    }

    pub fn as_str(&self) -> (s: &'static str)
        ensures
            s@ == self.name(),
    {
        match self {
            Side::Buy => "BUY",
            Side::Sell => "SELL",
        }
    }

    /// The variant with the given name.
    pub fn from_str(s: &str) -> (r: Result<Side, ParseError>)
        ensures
            r == match Side::named(s@) {
                Some(v) => Ok::<Side, ParseError>(v),
                None => Err::<Side, ParseError>(ParseError),
            },
    {
        if str_eq(s, "BUY") {
            Ok(Side::Buy)
        } else if str_eq(s, "SELL") {
            Ok(Side::Sell)
        } else {
            Err(ParseError)
        }
    }

    /// Every variant is found again by its name: no two share one.
    pub proof fn lemma_named_name(self)
        ensures
            Side::named(self.name()) == Some(self),
    {
        reveal_strlit("BUY");
        reveal_strlit("SELL");
        assert("BUY"@.len() == 3);
        assert("SELL"@.len() == 4);
    }
}

/// A string decodes to the variant of that name.
impl FromJson for Side {
    open spec fn decoded(json: Json) -> Option<Side> {
        match json.text() {
            Some(text) => match Side::named(text) {
                Some(v) => Some(v),
                None => None,
            },
            None => None,
        }
    }

    fn from_json(json: &Json) -> (r: Option<Side>) {
        match json.as_str() {
            Some(text) => match Side::from_str(text) {
                Ok(v) => Some(v),
                Err(_) => None,
            },
            None => None,
        }
    }
}

/// How long an order stays in force.
#[derive(Copy, Clone, Debug, PartialEq, Eq, Structural)]
pub enum TimeInForce {
    GTC,
    IOC,
    FOK,
}

impl TimeInForce {
    /// The name on the wire.
    pub open spec fn name(self) -> Seq<char> {
        match self {
            TimeInForce::GTC => "G_T_C"@,
            TimeInForce::IOC => "I_O_C"@,
            TimeInForce::FOK => "F_O_K"@,
        }
    }

    /// The variant of a name, if it is the name of one.
    pub open spec fn named(name: Seq<char>) -> Option<TimeInForce> {
        if name == "G_T_C"@ {
            Some(TimeInForce::GTC)
        } else if name == "I_O_C"@ {
            Some(TimeInForce::IOC)
        } else if name == "F_O_K"@ {
            Some(TimeInForce::FOK)
        } else {
            None
        }
    }

    pub fn as_str(&self) -> (s: &'static str)
        ensures
            s@ == self.name(),
    {
        match self {
            TimeInForce::GTC => "G_T_C",
            TimeInForce::IOC => "I_O_C",
            TimeInForce::FOK => "F_O_K",
        }
    }

    /// The variant with the given name.
    pub fn from_str(s: &str) -> (r: Result<TimeInForce, ParseError>)
        ensures
            r == match TimeInForce::named(s@) {
                Some(v) => Ok::<TimeInForce, ParseError>(v),
                None => Err::<TimeInForce, ParseError>(ParseError),
            },
    {
        if str_eq(s, "G_T_C") {
            Ok(TimeInForce::GTC)
        } else if str_eq(s, "I_O_C") {
            Ok(TimeInForce::IOC)
        } else if str_eq(s, "F_O_K") {
            Ok(TimeInForce::FOK)
        } else {
            Err(ParseError)
        }
    }

    /// Every variant is found again by its name: no two share one.
    pub proof fn lemma_named_name(self)
        ensures
            TimeInForce::named(self.name()) == Some(self),
    {
        reveal_strlit("G_T_C");
        reveal_strlit("I_O_C");
        reveal_strlit("F_O_K");
        assert("G_T_C"@.len() == 5);
        assert("I_O_C"@.len() == 5);
        assert("F_O_K"@.len() == 5);
        assert("G_T_C"@[0] != "I_O_C"@[0]);
        assert("G_T_C"@[0] != "F_O_K"@[0]);
        assert("I_O_C"@[0] != "F_O_K"@[0]);
    }
}

/// A string decodes to the variant of that name.
impl FromJson for TimeInForce {
    open spec fn decoded(json: Json) -> Option<TimeInForce> {
        match json.text() {
            Some(text) => match TimeInForce::named(text) {
                Some(v) => Some(v),
                None => None,
            },
            None => None,
        }
    }

    fn from_json(json: &Json) -> (r: Option<TimeInForce>) {
        match json.as_str() {
            Some(text) => match TimeInForce::from_str(text) {
                Ok(v) => Some(v),
                Err(_) => None,
            },
            None => None,
        }
    }
}

/// One candlestick of a stream. Prices and volumes are kept as the text
/// that the exchange sends.
#[derive(Clone, Debug)]
pub struct Kline {
    pub start_time: i64,
    pub end_time: i64,
    pub symbol: String,
    pub interval: String,
    pub first_trade_id: i32,
    pub last_trade_id: i32,
    pub open: String,
    pub close: String,
    pub high: String,
    pub low: String,
    pub volume: String,
    pub number_of_trades: i32,
    pub is_final_bar: bool,
    pub quote_volume: String,
    pub active_buy_volume: String,
    pub active_volume_buy_quote: String,
    pub ignore_me: String,
}

/// An object matches where it has every member of the shape, each of its
/// own kind; what else it holds is ignored.
impl FromJson for Kline {
    open spec fn decoded(json: Json) -> Option<Kline> {
        let start_time = field::<i64>(json, "t"@);
        let end_time = field::<i64>(json, "T"@);
        let symbol = field::<String>(json, "s"@);
        let interval = field::<String>(json, "i"@);
        let first_trade_id = field::<i32>(json, "f"@);
        let last_trade_id = field::<i32>(json, "L"@);
        let open = field::<String>(json, "o"@);
        let close = field::<String>(json, "c"@);
        let high = field::<String>(json, "h"@);
        let low = field::<String>(json, "l"@);
        let volume = field::<String>(json, "v"@);
        let number_of_trades = field::<i32>(json, "n"@);
        let is_final_bar = field::<bool>(json, "x"@);
        let quote_volume = field::<String>(json, "q"@);
        let active_buy_volume = field::<String>(json, "V"@);
        let active_volume_buy_quote = field::<String>(json, "Q"@);
        let ignore_me = field::<String>(json, "B"@);
        if start_time is Some && end_time is Some && symbol is Some && interval is Some
            && first_trade_id is Some && last_trade_id is Some && open is Some && close is Some
            && high is Some && low is Some && volume is Some && number_of_trades is Some
            && is_final_bar is Some && quote_volume is Some && active_buy_volume is Some
            && active_volume_buy_quote is Some && ignore_me is Some {
            Some(
                Kline {
                    start_time: start_time->0,
                    end_time: end_time->0,
                    symbol: symbol->0,
                    interval: interval->0,
                    first_trade_id: first_trade_id->0,
                    last_trade_id: last_trade_id->0,
                    open: open->0,
                    close: close->0,
                    high: high->0,
                    low: low->0,
                    volume: volume->0,
                    number_of_trades: number_of_trades->0,
                    is_final_bar: is_final_bar->0,
                    quote_volume: quote_volume->0,
                    active_buy_volume: active_buy_volume->0,
                    active_volume_buy_quote: active_volume_buy_quote->0,
                    ignore_me: ignore_me->0,
                },
            )
        } else {
            None
        }
    }

    fn from_json(json: &Json) -> (r: Option<Kline>) {
        let start_time = get_field::<i64>(json, "t")?;
        let end_time = get_field::<i64>(json, "T")?;
        let symbol = get_field::<String>(json, "s")?;
        let interval = get_field::<String>(json, "i")?;
        let first_trade_id = get_field::<i32>(json, "f")?;
        let last_trade_id = get_field::<i32>(json, "L")?;
        let open = get_field::<String>(json, "o")?;
        let close = get_field::<String>(json, "c")?;
        let high = get_field::<String>(json, "h")?;
        let low = get_field::<String>(json, "l")?;
        let volume = get_field::<String>(json, "v")?;
        let number_of_trades = get_field::<i32>(json, "n")?;
        let is_final_bar = get_field::<bool>(json, "x")?;
        let quote_volume = get_field::<String>(json, "q")?;
        let active_buy_volume = get_field::<String>(json, "V")?;
        let active_volume_buy_quote = get_field::<String>(json, "Q")?;
        let ignore_me = get_field::<String>(json, "B")?;
        Some(
            Kline {
                start_time, end_time, symbol, interval, first_trade_id, last_trade_id, open, close,
                high, low, volume, number_of_trades, is_final_bar, quote_volume, active_buy_volume,
                active_volume_buy_quote, ignore_me,
            },
        )
    }
}

/// A candlestick event of a stream.
#[derive(Clone, Debug)]
pub struct CandelStickMessage {
    pub event_type: String,
    pub event_time: u64,
    pub symbol: String,
    pub kline: Kline,
}

/// An object matches where it has every member of the shape, each of its
/// own kind; what else it holds is ignored.
impl FromJson for CandelStickMessage {
    open spec fn decoded(json: Json) -> Option<CandelStickMessage> {
        let event_type = field::<String>(json, "e"@);
        let event_time = field::<u64>(json, "E"@);
        let symbol = field::<String>(json, "s"@);
        let kline = field::<Kline>(json, "k"@);
        if event_type is Some && event_time is Some && symbol is Some && kline is Some {
            Some(
                CandelStickMessage {
                    event_type: event_type->0,
                    event_time: event_time->0,
                    symbol: symbol->0,
                    kline: kline->0,
                },
            )
        } else {
            None
        }
    }

    fn from_json(json: &Json) -> (r: Option<CandelStickMessage>) {
        let event_type = get_field::<String>(json, "e")?;
        let event_time = get_field::<u64>(json, "E")?;
        let symbol = get_field::<String>(json, "s")?;
        let kline = get_field::<Kline>(json, "k")?;
        Some(CandelStickMessage { event_type, event_time, symbol, kline })
    }
}

} // verus!
