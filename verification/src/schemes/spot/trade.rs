//! Trading on the spot market.

use crate::api::client::json::{field, get_field, FromJson, Json};
use crate::api::client::number::int_text;
use crate::api::client::text::str_eq;
use crate::api::client::url::pair_text;
use crate::schemes::common::general::{RateLimitInterval, RateLimitType};
use crate::types::ParseError;
use vstd::prelude::*;

verus! {

/// How long an order stays in force: good till cancelled, immediate or
/// cancel, fill or kill.
#[derive(Copy, Clone, Debug, PartialEq, Eq, Structural)]
pub enum TimeInForce {
    GTC,
    IOC,
    FOK,
}

impl TimeInForce {
    /// The name on the wire.
    pub open spec fn name(self) -> Seq<char> {
        match self {
            TimeInForce::GTC => "GTC"@,
            TimeInForce::IOC => "IOC"@,
            TimeInForce::FOK => "FOK"@,
        }
    }

    /// The variant of a name, if it is the name of one.
    pub open spec fn named(name: Seq<char>) -> Option<TimeInForce> {
        if name == "GTC"@ {
            Some(TimeInForce::GTC)
        } else if name == "IOC"@ {
            Some(TimeInForce::IOC)
        } else if name == "FOK"@ {
            Some(TimeInForce::FOK)
        } else {
            None
        }
    }

    pub fn as_str(&self) -> (s: &'static str)
        ensures
            s@ == self.name(),
    {
        match self {
            TimeInForce::GTC => "GTC",
            TimeInForce::IOC => "IOC",
            TimeInForce::FOK => "FOK",
        }
    }

    /// The variant with the given name.
    pub fn from_str(s: &str) -> (r: Result<TimeInForce, ParseError>)
        ensures
            r == match TimeInForce::named(s@) {
                Some(v) => Ok::<TimeInForce, ParseError>(v),
                None => Err::<TimeInForce, ParseError>(ParseError),
            },
    {
        if str_eq(s, "GTC") {
            Ok(TimeInForce::GTC)
        } else if str_eq(s, "IOC") {
            Ok(TimeInForce::IOC)
        } else if str_eq(s, "FOK") {
            Ok(TimeInForce::FOK)
        } else {
            Err(ParseError)
        }
    }

    /// Every variant is found again by its name: no two share one.
    pub proof fn lemma_named_name(self)
        ensures
            TimeInForce::named(self.name()) == Some(self),
    {
        reveal_strlit("GTC");
        reveal_strlit("IOC");
        reveal_strlit("FOK");
        assert("GTC"@.len() == 3);
        assert("IOC"@.len() == 3);
        assert("FOK"@.len() == 3);
        assert("GTC"@[0] != "IOC"@[0]);
        assert("GTC"@[0] != "FOK"@[0]);
        assert("IOC"@[0] != "FOK"@[0]);
    }
}

/// A string decodes to the variant of that name.
impl FromJson for TimeInForce {
    open spec fn decoded(json: Json) -> Option<TimeInForce> {
        match json.text() {
            Some(text) => match TimeInForce::named(text) {
                Some(v) => Some(v),
                None => None,
            },
            None => None,
        }
    }

    fn from_json(json: &Json) -> (r: Option<TimeInForce>) {
        match json.as_str() {
            Some(text) => match TimeInForce::from_str(text) {
                Ok(v) => Some(v),
                Err(_) => None,
            },
            None => None,
        }
    }
}

/// The answer to the test of a new order: an object without members.
#[derive(Clone, Debug)]
pub struct TestNewOrderRes {}

/// Only an object without any member matches.
impl FromJson for TestNewOrderRes {
    open spec fn decoded(json: Json) -> Option<TestNewOrderRes> {
        if json.member_count() == Some(0nat) {
            Some(TestNewOrderRes {  })
        } else {
            None
        }
    }

    fn from_json(json: &Json) -> (r: Option<TestNewOrderRes>) {
        if json.is_empty_object() {
            Some(TestNewOrderRes {  })
        } else {
            None
        }
    }
}

/// What happens to the new order where the cancellation fails: it is not
/// placed, or it is placed all the same.
#[derive(Copy, Clone, Debug, PartialEq, Eq, Structural)]
pub enum CancelReplaceMode {
    StopOnFailure,
    AllowFailure,
}

impl CancelReplaceMode {
    /// The name on the wire.
    pub open spec fn name(self) -> Seq<char> {
        match self {
            CancelReplaceMode::StopOnFailure => "STOP_ON_FAILURE"@,
            CancelReplaceMode::AllowFailure => "ALLOW_FAILURE"@,
        }
    }

    /// The variant of a name, if it is the name of one.
    pub open spec fn named(name: Seq<char>) -> Option<CancelReplaceMode> {
        if name == "STOP_ON_FAILURE"@ {
            Some(CancelReplaceMode::StopOnFailure)
        } else if name == "ALLOW_FAILURE"@ {
            Some(CancelReplaceMode::AllowFailure)
        } else {
            None
        }
    }

    pub fn as_str(&self) -> (s: &'static str)
        ensures
            s@ == self.name(),
    {
        match self {
            CancelReplaceMode::StopOnFailure => "STOP_ON_FAILURE",
            CancelReplaceMode::AllowFailure => "ALLOW_FAILURE",
        }
    }

    /// The variant with the given name.
    pub fn from_str(s: &str) -> (r: Result<CancelReplaceMode, ParseError>)
        ensures
            r == match CancelReplaceMode::named(s@) {
                Some(v) => Ok::<CancelReplaceMode, ParseError>(v),
                None => Err::<CancelReplaceMode, ParseError>(ParseError),
            },
    {
        if str_eq(s, "STOP_ON_FAILURE") {
            Ok(CancelReplaceMode::StopOnFailure)
        } else if str_eq(s, "ALLOW_FAILURE") {
            Ok(CancelReplaceMode::AllowFailure)
        } else {
            Err(ParseError)
        }
    }

    /// Every variant is found again by its name: no two share one.
    pub proof fn lemma_named_name(self)
        ensures
            CancelReplaceMode::named(self.name()) == Some(self),
    {
        reveal_strlit("STOP_ON_FAILURE");
        reveal_strlit("ALLOW_FAILURE");
        assert("STOP_ON_FAILURE"@.len() == 15);
        assert("ALLOW_FAILURE"@.len() == 13);
    }
}

/// A string decodes to the variant of that name.
impl FromJson for CancelReplaceMode {
    open spec fn decoded(json: Json) -> Option<CancelReplaceMode> {
        match json.text() {
            Some(text) => match CancelReplaceMode::named(text) {
                Some(v) => Some(v),
                None => None,
            },
            None => None,
        }
    }

    fn from_json(json: &Json) -> (r: Option<CancelReplaceMode>) {
        match json.as_str() {
            Some(text) => match CancelReplaceMode::from_str(text) {
                Ok(v) => Some(v),
                Err(_) => None,
            },
            None => None,
        }
    }
}

/// How much the exchange answers to a new order.
#[derive(Copy, Clone, Debug, PartialEq, Eq, Structural)]
pub enum OrderResponseType {
    Ack,
    Result,
    Full,
}

impl OrderResponseType {
    /// The name on the wire.
    pub open spec fn name(self) -> Seq<char> {
        match self {
            OrderResponseType::Ack => "ACK"@,
            OrderResponseType::Result => "RESULT"@,
            OrderResponseType::Full => "FULL"@,
        }
    }

    /// The variant of a name, if it is the name of one.
    pub open spec fn named(name: Seq<char>) -> Option<OrderResponseType> {
        if name == "ACK"@ {
            Some(OrderResponseType::Ack)
        } else if name == "RESULT"@ {
            Some(OrderResponseType::Result)
        } else if name == "FULL"@ {
            Some(OrderResponseType::Full)
        } else {
            None
        }
    }

    pub fn as_str(&self) -> (s: &'static str)
        ensures
            s@ == self.name(),
    {
        match self {
            OrderResponseType::Ack => "ACK",
            OrderResponseType::Result => "RESULT",
            OrderResponseType::Full => "FULL",
        }
    }

    /// The variant with the given name.
    pub fn from_str(s: &str) -> (r: Result<OrderResponseType, ParseError>)
        ensures
            r == match OrderResponseType::named(s@) {
                Some(v) => Ok::<OrderResponseType, ParseError>(v),
                None => Err::<OrderResponseType, ParseError>(ParseError),
            },
    {
        if str_eq(s, "ACK") {
            Ok(OrderResponseType::Ack)
        } else if str_eq(s, "RESULT") {
            Ok(OrderResponseType::Result)
        } else if str_eq(s, "FULL") {
            Ok(OrderResponseType::Full)
        } else {
            Err(ParseError)
        }
    }

    /// Every variant is found again by its name: no two share one.
    pub proof fn lemma_named_name(self)
        ensures
            OrderResponseType::named(self.name()) == Some(self),
    {
        reveal_strlit("ACK");
        reveal_strlit("RESULT");
        reveal_strlit("FULL");
        assert("ACK"@.len() == 3);
        assert("RESULT"@.len() == 6);
        assert("FULL"@.len() == 4);
    }
}

/// A string decodes to the variant of that name.
impl FromJson for OrderResponseType {
    open spec fn decoded(json: Json) -> Option<OrderResponseType> {
        match json.text() {
            Some(text) => match OrderResponseType::named(text) {
                Some(v) => Some(v),
                None => None,
            },
            None => None,
        }
    }

    fn from_json(json: &Json) -> (r: Option<OrderResponseType>) {
        match json.as_str() {
            Some(text) => match OrderResponseType::from_str(text) {
                Ok(v) => Some(v),
                Err(_) => None,
            },
            None => None,
        }
    }
}

/// The side of an order.
#[derive(Copy, Clone, Debug, PartialEq, Eq, Structural)]
pub enum OrderSide {
    BUY,
    SELL,
}

impl OrderSide {
    /// The name on the wire.
    pub open spec fn name(self) -> Seq<char> {
        match self {
            OrderSide::BUY => "BUY"@,
            OrderSide::SELL => "SELL"@,
        }
    }

    /// The variant of a name, if it is the name of one.
    pub open spec fn named(name: Seq<char>) -> Option<OrderSide> {
        if name == "BUY"@ {
            Some(OrderSide::BUY)
        } else if name == "SELL"@ {
            Some(OrderSide::SELL)
        } else {
            None
        }
    }

    pub fn as_str(&self) -> (s: &'static str)
        ensures
            s@ == self.name(),
    {
        match self {
            OrderSide::BUY => "BUY",
            OrderSide::SELL => "SELL",
        }
    }

    /// The variant with the given name.
    pub fn from_str(s: &str) -> (r: Result<OrderSide, ParseError>)
        ensures
            r == match OrderSide::named(s@) {
                Some(v) => Ok::<OrderSide, ParseError>(v),
                None => Err::<OrderSide, ParseError>(ParseError),
            },
    {
        if str_eq(s, "BUY") {
            Ok(OrderSide::BUY)
        } else if str_eq(s, "SELL") {
            Ok(OrderSide::SELL)
        } else {
            Err(ParseError)
        }
    }

    /// Every variant is found again by its name: no two share one.
    pub proof fn lemma_named_name(self)
        ensures
            OrderSide::named(self.name()) == Some(self),
    {
        reveal_strlit("BUY");
        reveal_strlit("SELL");
        assert("BUY"@.len() == 3);
        assert("SELL"@.len() == 4);
    }
}

/// A string decodes to the variant of that name.
impl FromJson for OrderSide {
    open spec fn decoded(json: Json) -> Option<OrderSide> {
        match json.text() {
            Some(text) => match OrderSide::named(text) {
                Some(v) => Some(v),
                None => None,
            },
            None => None,
        }
    }

    fn from_json(json: &Json) -> (r: Option<OrderSide>) {
        match json.as_str() {
            Some(text) => match OrderSide::from_str(text) {
                Ok(v) => Some(v),
                Err(_) => None,
            },
            None => None,
        }
    }
}

/// The acknowledgement of an order.
#[derive(Clone, Debug)]
pub struct TransactionAck {
    pub symbol: String,
    pub order_id: u64,
    /// -1 unless the order belongs to an order list.
    pub order_list_id: i64,
    pub client_order_id: String,
    pub transact_time: u64,
}

/// An object matches where it has every member of the shape, each of its
/// own kind; what else it holds is ignored.
impl FromJson for TransactionAck {
    open spec fn decoded(json: Json) -> Option<TransactionAck> {
        let symbol = field::<String>(json, "symbol"@);
        let order_id = field::<u64>(json, "orderId"@);
        let order_list_id = field::<i64>(json, "orderListId"@);
        let client_order_id = field::<String>(json, "clientOrderId"@);
        let transact_time = field::<u64>(json, "transactTime"@);
        if symbol is Some && order_id is Some && order_list_id is Some
            && client_order_id is Some && transact_time is Some {
            Some(
                TransactionAck {
                    symbol: symbol->0,
                    order_id: order_id->0,
                    order_list_id: order_list_id->0,
                    client_order_id: client_order_id->0,
                    transact_time: transact_time->0,
                },
            )
        } else {
            None
        }
    }

    fn from_json(json: &Json) -> (r: Option<TransactionAck>) {
        let symbol = get_field::<String>(json, "symbol")?;
        let order_id = get_field::<u64>(json, "orderId")?;
        let order_list_id = get_field::<i64>(json, "orderListId")?;
        let client_order_id = get_field::<String>(json, "clientOrderId")?;
        let transact_time = get_field::<u64>(json, "transactTime")?;
        Some(TransactionAck { symbol, order_id, order_list_id, client_order_id, transact_time })
    }
}

/// What cancels an order.
#[derive(Clone, Debug)]
pub struct CancelOrderReq {
    pub symbol: String,
    pub order_id: Option<u64>,
    pub orig_client_order_id: Option<String>,
    /// Identifies this cancellation; the exchange makes one up where none
    /// is given.
    pub new_client_order_id: Option<String>,
}

/// How the orders of a list depend on each other.
#[derive(Copy, Clone, Debug, PartialEq, Eq, Structural)]
pub enum ContingencyType {
    Oco,
    Unknown,
}

impl ContingencyType {
    /// The name on the wire.
    pub open spec fn name(self) -> Seq<char> {
        match self {
            ContingencyType::Oco => "OCO"@,
            ContingencyType::Unknown => "UNKNOWN"@,
        }
    }

    /// The variant of a name, if it is the name of one.
    pub open spec fn named(name: Seq<char>) -> Option<ContingencyType> {
        if name == "OCO"@ {
            Some(ContingencyType::Oco)
        } else if name == "UNKNOWN"@ {
            Some(ContingencyType::Unknown)
        } else {
            None
        }
    }

    pub fn as_str(&self) -> (s: &'static str)
        ensures
            s@ == self.name(),
    {
        match self {
            ContingencyType::Oco => "OCO",
            ContingencyType::Unknown => "UNKNOWN",
        }
    }

    /// The variant with the given name.
    pub fn from_str(s: &str) -> (r: Result<ContingencyType, ParseError>)
        ensures
            r == match ContingencyType::named(s@) {
                Some(v) => Ok::<ContingencyType, ParseError>(v),
                None => Err::<ContingencyType, ParseError>(ParseError),
            },
    {
        if str_eq(s, "OCO") {
            Ok(ContingencyType::Oco)
        } else if str_eq(s, "UNKNOWN") {
            Ok(ContingencyType::Unknown)
        } else {
            Err(ParseError)
        }
    }

    /// Every variant is found again by its name: no two share one.
    pub proof fn lemma_named_name(self)
        ensures
            ContingencyType::named(self.name()) == Some(self),
    {
        reveal_strlit("OCO");
        reveal_strlit("UNKNOWN");
        assert("OCO"@.len() == 3);
        assert("UNKNOWN"@.len() == 7);
    }
}

/// A string decodes to the variant of that name, and any other string to
/// `Unknown`.
impl FromJson for ContingencyType {
    open spec fn decoded(json: Json) -> Option<ContingencyType> {
        match json.text() {
            Some(text) => match ContingencyType::named(text) {
                Some(v) => Some(v),
                None => Some(ContingencyType::Unknown),
            },
            None => None,
        }
    }

    fn from_json(json: &Json) -> (r: Option<ContingencyType>) {
        match json.as_str() {
            Some(text) => match ContingencyType::from_str(text) {
                Ok(v) => Some(v),
                Err(_) => Some(ContingencyType::Unknown),
            },
            None => None,
        }
    }
}

/// What the status of an order list reports: the answer to a failed
/// action, the placing of the list or an update to it, or its end.
#[derive(Copy, Clone, Debug, PartialEq, Eq, Structural)]
pub enum OcoOrderStatusType {
    Response,
    ExecStarted,
    AllDone,
}

impl OcoOrderStatusType {
    /// The name on the wire.
    pub open spec fn name(self) -> Seq<char> {
        match self {
            OcoOrderStatusType::Response => "RESPONSE"@,
            OcoOrderStatusType::ExecStarted => "EXECSTARTED"@,
            OcoOrderStatusType::AllDone => "ALLDONE"@,
        }
    }

    /// The variant of a name, if it is the name of one.
    pub open spec fn named(name: Seq<char>) -> Option<OcoOrderStatusType> {
        if name == "RESPONSE"@ {
            Some(OcoOrderStatusType::Response)
        } else if name == "EXECSTARTED"@ {
            Some(OcoOrderStatusType::ExecStarted)
        } else if name == "ALLDONE"@ {
            Some(OcoOrderStatusType::AllDone)
        } else {
            None
        }
    }

    pub fn as_str(&self) -> (s: &'static str)
        ensures
            s@ == self.name(),
    {
        match self {
            OcoOrderStatusType::Response => "RESPONSE",
            OcoOrderStatusType::ExecStarted => "EXECSTARTED",
            OcoOrderStatusType::AllDone => "ALLDONE",
        }
    }

    /// The variant with the given name.
    pub fn from_str(s: &str) -> (r: Result<OcoOrderStatusType, ParseError>)
        ensures
            r == match OcoOrderStatusType::named(s@) {
                Some(v) => Ok::<OcoOrderStatusType, ParseError>(v),
                None => Err::<OcoOrderStatusType, ParseError>(ParseError),
            },
    {
        if str_eq(s, "RESPONSE") {
            Ok(OcoOrderStatusType::Response)
        } else if str_eq(s, "EXECSTARTED") {
            Ok(OcoOrderStatusType::ExecStarted)
        } else if str_eq(s, "ALLDONE") {
            Ok(OcoOrderStatusType::AllDone)
        } else {
            Err(ParseError)
        }
    }

    /// Every variant is found again by its name: no two share one.
    pub proof fn lemma_named_name(self)
        ensures
            OcoOrderStatusType::named(self.name()) == Some(self),
    {
        reveal_strlit("RESPONSE");
        reveal_strlit("EXECSTARTED");
        reveal_strlit("ALLDONE");
        assert("RESPONSE"@.len() == 8);
        assert("EXECSTARTED"@.len() == 11);
        assert("ALLDONE"@.len() == 7);
    }
}

/// A string decodes to the variant of that name.
impl FromJson for OcoOrderStatusType {
    open spec fn decoded(json: Json) -> Option<OcoOrderStatusType> {
        match json.text() {
            Some(text) => match OcoOrderStatusType::named(text) {
                Some(v) => Some(v),
                None => None,
            },
            None => None,
        }
    }

    fn from_json(json: &Json) -> (r: Option<OcoOrderStatusType>) {
        match json.as_str() {
            Some(text) => match OcoOrderStatusType::from_str(text) {
                Ok(v) => Some(v),
                Err(_) => None,
            },
            None => None,
        }
    }
}

/// The state of an order list: executing, done, or rejected.
#[derive(Copy, Clone, Debug, PartialEq, Eq, Structural)]
pub enum OcoOrderStatus {
    Executing,
    AllDone,
    Reject,
}

impl OcoOrderStatus {
    /// The name on the wire.
    pub open spec fn name(self) -> Seq<char> {
        match self {
            OcoOrderStatus::Executing => "EXECUTING"@,
            OcoOrderStatus::AllDone => "ALLDONE"@,
            OcoOrderStatus::Reject => "REJECT"@,
        }
    }

    /// The variant of a name, if it is the name of one.
    pub open spec fn named(name: Seq<char>) -> Option<OcoOrderStatus> {
        if name == "EXECUTING"@ {
            Some(OcoOrderStatus::Executing)
        } else if name == "ALLDONE"@ {
            Some(OcoOrderStatus::AllDone)
        } else if name == "REJECT"@ {
            Some(OcoOrderStatus::Reject)
        } else {
            None
        }
    }

    pub fn as_str(&self) -> (s: &'static str)
        ensures
            s@ == self.name(),
    {
        match self {
            OcoOrderStatus::Executing => "EXECUTING",
            OcoOrderStatus::AllDone => "ALLDONE",
            OcoOrderStatus::Reject => "REJECT",
        }
    }

    /// The variant with the given name.
    pub fn from_str(s: &str) -> (r: Result<OcoOrderStatus, ParseError>)
        ensures
            r == match OcoOrderStatus::named(s@) {
                Some(v) => Ok::<OcoOrderStatus, ParseError>(v),
                None => Err::<OcoOrderStatus, ParseError>(ParseError),
            },
    {
        if str_eq(s, "EXECUTING") {
            Ok(OcoOrderStatus::Executing)
        } else if str_eq(s, "ALLDONE") {
            Ok(OcoOrderStatus::AllDone)
        } else if str_eq(s, "REJECT") {
            Ok(OcoOrderStatus::Reject)
        } else {
            Err(ParseError)
        }
    }

    /// Every variant is found again by its name: no two share one.
    pub proof fn lemma_named_name(self)
        ensures
            OcoOrderStatus::named(self.name()) == Some(self),
    {
        reveal_strlit("EXECUTING");
        reveal_strlit("ALLDONE");
        reveal_strlit("REJECT");
        assert("EXECUTING"@.len() == 9);
        assert("ALLDONE"@.len() == 7);
        assert("REJECT"@.len() == 6);
    }
}

/// A string decodes to the variant of that name.
impl FromJson for OcoOrderStatus {
    open spec fn decoded(json: Json) -> Option<OcoOrderStatus> {
        match json.text() {
            Some(text) => match OcoOrderStatus::named(text) {
                Some(v) => Some(v),
                None => None,
            },
            None => None,
        }
    }

    fn from_json(json: &Json) -> (r: Option<OcoOrderStatus>) {
        match json.as_str() {
            Some(text) => match OcoOrderStatus::from_str(text) {
                Ok(v) => Some(v),
                Err(_) => None,
            },
            None => None,
        }
    }
}

/// One order of an order list.
#[derive(Clone, Debug)]
pub struct OcoOrder {
    pub symbol: String,
    pub order_id: u64,
    pub client_order_id: String,
}

/// An object matches where it has every member of the shape, each of its
/// own kind; what else it holds is ignored.
impl FromJson for OcoOrder {
    open spec fn decoded(json: Json) -> Option<OcoOrder> {
        let symbol = field::<String>(json, "symbol"@);
        let order_id = field::<u64>(json, "orderId"@);
        let client_order_id = field::<String>(json, "clientOrderId"@);
        if symbol is Some && order_id is Some && client_order_id is Some {
            Some(
                OcoOrder {
                    symbol: symbol->0,
                    order_id: order_id->0,
                    client_order_id: client_order_id->0,
                },
            )
        } else {
            None
        }
    }

    fn from_json(json: &Json) -> (r: Option<OcoOrder>) {
        let symbol = get_field::<String>(json, "symbol")?;
        let order_id = get_field::<u64>(json, "orderId")?;
        let client_order_id = get_field::<String>(json, "clientOrderId")?;
        Some(OcoOrder { symbol, order_id, client_order_id })
    }
}

/// One of the two identifiers of an order list.
#[derive(Clone, Debug)]
pub enum OrderIdOrClientOrderId {
    OrderListId(u64),
    OrigClientOrderId(String),
}

impl OrderIdOrClientOrderId {
    /// The parameter that names the order list.
    pub open spec fn param(self) -> Seq<char> {
        match self {
            OrderIdOrClientOrderId::OrderListId(id) => pair_text(
                "orderListId"@,
                int_text(id as int),
            ),
            OrderIdOrClientOrderId::OrigClientOrderId(id) => pair_text(
                "origClientOrderId"@,
                id@,
            ),
        }
    }
}

/// What asks for the trades of an account.
#[derive(Clone, Debug)]
pub struct AccountTradesReq {
    pub symbol: String,
    /// Only together with the symbol.
    pub order_id: Option<u64>,
    pub start_time: Option<u64>,
    pub end_time: Option<u64>,
    /// The trade to start from; the most recent trades where none is given.
    pub from_id: Option<u64>,
    /// 500 by default, 1000 at most.
    pub limit: u16,
}

/// How many orders count against a rate limit.
#[derive(Clone, Debug)]
pub struct OrderRateLimit {
    pub rate_limit_type: RateLimitType,
    pub interval: RateLimitInterval,
    pub interval_num: u32,
    pub limit: u32,
    pub count: u32,
}

/// An object matches where it has every member of the shape, each of its
/// own kind; what else it holds is ignored.
impl FromJson for OrderRateLimit {
    open spec fn decoded(json: Json) -> Option<OrderRateLimit> {
        let rate_limit_type = field::<RateLimitType>(json, "rateLimitType"@);
        let interval = field::<RateLimitInterval>(json, "interval"@);
        let interval_num = field::<u32>(json, "intervalNum"@);
        let limit = field::<u32>(json, "limit"@);
        let count = field::<u32>(json, "count"@);
        if rate_limit_type is Some && interval is Some && interval_num is Some && limit is Some
            && count is Some {
            Some(
                OrderRateLimit {
                    rate_limit_type: rate_limit_type->0,
                    interval: interval->0,
                    interval_num: interval_num->0,
                    limit: limit->0,
                    count: count->0,
                },
            )
        } else {
            None
        }
    }

    fn from_json(json: &Json) -> (r: Option<OrderRateLimit>) {
        let rate_limit_type = get_field::<RateLimitType>(json, "rateLimitType")?;
        let interval = get_field::<RateLimitInterval>(json, "interval")?;
        let interval_num = get_field::<u32>(json, "intervalNum")?;
        let limit = get_field::<u32>(json, "limit")?;
        let count = get_field::<u32>(json, "count")?;
        Some(OrderRateLimit { rate_limit_type, interval, interval_num, limit, count })
    }
}

} // verus!
