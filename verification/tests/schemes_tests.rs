use binancex::api::client::json::{parse_json, FromJson, Json};
use binancex::schemes::common::general::{
    ExchangeFilter, RateLimit, RateLimitInterval, RateLimitType,
};
use binancex::schemes::error::{Error, NewOrderResponse};
use binancex::schemes::general::{
    ExchangeFilter as FirstExchangeFilter, Interval, RateLimit as FirstRateLimit,
    SymbolStatus as FirstSymbolStatus,
};
use binancex::schemes::market::DepthLimit as FirstDepthLimit;
use binancex::schemes::spot::trade::{
    CancelReplaceMode, ContingencyType, OcoOrder, OcoOrderStatus, OcoOrderStatusType,
    OrderRateLimit, OrderResponseType, OrderSide, TestNewOrderRes, TimeInForce, TransactionAck,
};
use binancex::schemes::websocket::{
    CandelStickMessage, OrderExecType, OrderRejectReason, OrderStatus, OrderType, Side,
    TimeInForce as StreamTimeInForce,
};
use binancex::types::ParseError;

fn json(text: &str) -> Json {
    parse_json(text.as_bytes()).unwrap()
}

#[test]
fn test_decode_rate_limit() {
    let limit = RateLimit::from_json(&json(
        r#"{"rateLimitType":"REQUEST_WEIGHT","interval":"MINUTE","intervalNum":1,"limit":1200}"#,
    ))
    .unwrap();
    assert_eq!(limit.rate_limit_type, RateLimitType::RequestWeight);
    assert_eq!(limit.interval, RateLimitInterval::Minute);
    assert_eq!(limit.interval_num, 1);
    assert_eq!(limit.limit, 1200);
    assert!(RateLimit::from_json(&json(
        r#"{"rateLimitType":"REQUEST_WEIGHT","interval":"MINUTE","intervalNum":1}"#
    ))
    .is_none());
    assert!(RateLimit::from_json(&json(
        r#"{"rateLimitType":"WEIGHT","interval":"MINUTE","intervalNum":1,"limit":1200}"#
    ))
    .is_none());
    assert!(RateLimit::from_json(&json(
        r#"{"rateLimitType":"ORDERS","interval":"DAY","intervalNum":4294967296,"limit":1}"#
    ))
    .is_none());
    assert_eq!(RateLimitType::RawRequests.as_str(), "RAW_REQUESTS");
    assert_eq!(RateLimitType::from_str("ORDERS"), Ok(RateLimitType::Orders));
    assert_eq!(RateLimitInterval::from_str("HOUR"), Err(ParseError));
}

#[test]
fn test_decode_order_rate_limit() {
    let limit = OrderRateLimit::from_json(&json(
        r#"{"rateLimitType":"ORDERS","interval":"SECOND","intervalNum":10,"limit":10000,"count":0}"#,
    ))
    .unwrap();
    assert_eq!(limit.rate_limit_type, RateLimitType::Orders);
    assert_eq!(limit.interval, RateLimitInterval::Second);
    assert_eq!(limit.interval_num, 10);
    assert_eq!(limit.limit, 10000);
    assert_eq!(limit.count, 0);
}

#[test]
fn test_decode_exchange_filter() {
    assert_eq!(
        ExchangeFilter::from_json(&json(
            r#"{"filterType":"EXCHANGE_MAX_NUM_ORDERS","maxNumOrders":1000}"#
        )),
        Some(ExchangeFilter::ExchangeMaxNumOrders { max_num_orders: 1000 })
    );
    assert_eq!(
        ExchangeFilter::from_json(&json(
            r#"{"filterType":"EXCHANGE_MAX_NUM_ALGO_ORDERS","maxNumAlgoOrders":200}"#
        )),
        Some(ExchangeFilter::ExchangeMaxNumAlgoOrders { max_num_algo_orders: 200 })
    );
    assert_eq!(
        ExchangeFilter::from_json(&json(
            r#"{"filterType":"EXCHANGE_MAX_NUM_ICEBERG_ORDERS","maxNumIcebergOrders":5}"#
        )),
        Some(ExchangeFilter::ExchangeMaxNumIcebergOrders { max_num_iceberg_orders: 5 })
    );
    assert_eq!(
        ExchangeFilter::from_json(&json(r#"{"filterType":"SOMETHING_NEW","limit":5}"#)),
        None
    );
    assert_eq!(
        ExchangeFilter::from_json(&json(
            r#"{"filterType":"EXCHANGE_MAX_NUM_ORDERS","maxNumAlgoOrders":1}"#
        )),
        None
    );
    assert_eq!(
        FirstExchangeFilter::from_json(&json(
            r#"{"filterType":"EXCHANGE_MAX_ALGO_ORDERS","limit":7}"#
        )),
        Some(FirstExchangeFilter::ExchangeMaxAlgoOrders { limit: 7 })
    );
    assert_eq!(
        FirstExchangeFilter::from_json(&json(
            r#"{"filterType":"EXCHANGE_MAX_NUM_ORDERS","limit":8}"#
        )),
        Some(FirstExchangeFilter::ExchangeMaxNumOrders { limit: 8 })
    );
}

#[test]
fn test_decode_first_client_shapes() {
    let limit = FirstRateLimit::from_json(&json(
        r#"{"rateLimitType":"ORDERS","interval":"DAY","intervalNum":1,"limit":200000}"#,
    ))
    .unwrap();
    assert_eq!(limit.interval, Interval::Day);
    assert_eq!(limit.limit, 200000);
    assert_eq!(
        FirstSymbolStatus::from_json(&json(r#""END_OF_DAY""#)),
        Some(FirstSymbolStatus::EndOfDay)
    );
    assert_eq!(FirstSymbolStatus::from_json(&json(r#""UNKNOWN""#)), None);
    assert_eq!(FirstDepthLimit::Limit5.to_u16(), 5);
    assert_eq!(FirstDepthLimit::Limit5000.to_u16(), 5000);
    assert_eq!(FirstDepthLimit::Limit100.to_u16(), 100);
}

#[test]
fn test_decode_transaction_ack() {
    let ack = TransactionAck::from_json(&json(
        r#"{"symbol":"BTCUSDT","orderId":28,"orderListId":-1,"clientOrderId":"6gCrw2kRUAF9CvJDGP16IP","transactTime":1507725176595}"#,
    ))
    .unwrap();
    assert_eq!(ack.symbol, "BTCUSDT");
    assert_eq!(ack.order_id, 28);
    assert_eq!(ack.order_list_id, -1);
    assert_eq!(ack.client_order_id, "6gCrw2kRUAF9CvJDGP16IP");
    assert_eq!(ack.transact_time, 1507725176595);
    assert!(TransactionAck::from_json(&json(r#"{"symbol":"BTCUSDT","orderId":-28,"orderListId":-1,"clientOrderId":"x","transactTime":1}"#)).is_none());
}

#[test]
fn test_decode_new_order_response() {
    match NewOrderResponse::from_json(&json(
        r#"{"symbol":"BTCUSDT","orderId":10,"orderListId":-1,"clientOrderId":"wOceeeOzNORyLiQfw7jd8S","transactTime":1652928801803}"#,
    ))
    .unwrap()
    {
        NewOrderResponse::Success { symbol, order_id, order_list_id, client_order_id, transact_time } => {
            assert_eq!(symbol, "BTCUSDT");
            assert_eq!(order_id, 10);
            assert_eq!(order_list_id, -1);
            assert_eq!(client_order_id, "wOceeeOzNORyLiQfw7jd8S");
            assert_eq!(transact_time, 1652928801803);
        }
        _ => panic!("an acknowledgement"),
    }
    match NewOrderResponse::from_json(&json(
        r#"{"code":-2010,"msg":"Order would immediately match and take."}"#,
    ))
    .unwrap()
    {
        NewOrderResponse::Failure(Error { code, msg }) => {
            assert_eq!(code, -2010);
            assert_eq!(msg, "Order would immediately match and take.");
        }
        _ => panic!("an error object"),
    }
    assert!(matches!(
        NewOrderResponse::from_json(&json("null")),
        Some(NewOrderResponse::NoResponse)
    ));
    assert!(NewOrderResponse::from_json(&json("{}")).is_none());
    assert!(NewOrderResponse::from_json(&json("1")).is_none());
}

#[test]
fn test_decode_trade_names() {
    assert_eq!(TimeInForce::from_json(&json(r#""GTC""#)), Some(TimeInForce::GTC));
    assert_eq!(TimeInForce::from_json(&json(r#""IOC""#)), Some(TimeInForce::IOC));
    assert_eq!(TimeInForce::from_json(&json(r#""FOK""#)), Some(TimeInForce::FOK));
    assert_eq!(TimeInForce::from_json(&json(r#""gtc""#)), None);
    assert_eq!(TimeInForce::from_json(&json("1")), None);
    assert_eq!(CancelReplaceMode::StopOnFailure.as_str(), "STOP_ON_FAILURE");
    assert_eq!(CancelReplaceMode::AllowFailure.as_str(), "ALLOW_FAILURE");
    assert_eq!(OrderResponseType::Ack.as_str(), "ACK");
    assert_eq!(OrderResponseType::Result.as_str(), "RESULT");
    assert_eq!(OrderResponseType::Full.as_str(), "FULL");
    assert_eq!(OrderSide::from_str("BUY"), Ok(OrderSide::BUY));
    assert_eq!(OrderSide::SELL.as_str(), "SELL");
    assert_eq!(ContingencyType::from_json(&json(r#""OCO""#)), Some(ContingencyType::Oco));
    assert_eq!(
        ContingencyType::from_json(&json(r#""SOMETHING""#)),
        Some(ContingencyType::Unknown)
    );
    assert_eq!(ContingencyType::from_json(&json("null")), None);
    assert_eq!(OcoOrderStatusType::ExecStarted.as_str(), "EXECSTARTED");
    assert_eq!(OcoOrderStatusType::AllDone.as_str(), "ALLDONE");
    assert_eq!(OcoOrderStatus::Executing.as_str(), "EXECUTING");
    assert_eq!(OcoOrderStatus::from_str("REJECT"), Ok(OcoOrderStatus::Reject));
    assert!(TestNewOrderRes::from_json(&json("{}")).is_some());
    assert!(TestNewOrderRes::from_json(&json(r#"{"a":1}"#)).is_none());
    let order = OcoOrder::from_json(&json(
        r#"{"symbol":"LTCBTC","orderId":4,"clientOrderId":"r3EH2N76dHfLoSZWIUw1bT","more":true}"#,
    ))
    .unwrap();
    assert_eq!(order.symbol, "LTCBTC");
    assert_eq!(order.order_id, 4);
    assert_eq!(order.client_order_id, "r3EH2N76dHfLoSZWIUw1bT");
}

#[test]
fn test_decode_stream_names() {
    assert_eq!(OrderExecType::from_str("NEW"), Ok(OrderExecType::New));
    assert_eq!(OrderRejectReason::from_str("NONE"), Ok(OrderRejectReason::NoReason));
    assert_eq!(OrderRejectReason::NoReason.as_str(), "NONE");
    assert_eq!(OrderStatus::PartiallyFilled.as_str(), "PARTIALLY_FILLED");
    assert_eq!(OrderType::StopLossLimit.as_str(), "STOP_LOSS_LIMIT");
    assert_eq!(OrderType::from_str("LIMIT_MAKER"), Ok(OrderType::LimitMaker));
    assert_eq!(Side::from_json(&json(r#""SELL""#)), Some(Side::Sell));
    assert_eq!(StreamTimeInForce::GTC.as_str(), "G_T_C");
    assert_eq!(StreamTimeInForce::from_str("F_O_K"), Ok(StreamTimeInForce::FOK));
}

#[test]
fn test_decode_candlestick_message() {
    let message = CandelStickMessage::from_json(&json(
        r#"{
          "e": "kline",
          "E": 1672515782136,
          "s": "BNBBTC",
          "k": {
            "t": 1672515780000,
            "T": 1672515839999,
            "s": "BNBBTC",
            "i": "1m",
            "f": 100,
            "L": 200,
            "o": "0.0010",
            "c": "0.0020",
            "h": "0.0025",
            "l": "0.0015",
            "v": "1000",
            "n": 100,
            "x": false,
            "q": "1.0000",
            "V": "500",
            "Q": "0.500",
            "B": "123456"
          }
        }"#,
    ))
    .unwrap();
    assert_eq!(message.event_type, "kline");
    assert_eq!(message.event_time, 1672515782136);
    assert_eq!(message.symbol, "BNBBTC");
    assert_eq!(message.kline.start_time, 1672515780000);
    assert_eq!(message.kline.end_time, 1672515839999);
    assert_eq!(message.kline.interval, "1m");
    assert_eq!(message.kline.first_trade_id, 100);
    assert_eq!(message.kline.last_trade_id, 200);
    assert_eq!(message.kline.open, "0.0010");
    assert_eq!(message.kline.close, "0.0020");
    assert_eq!(message.kline.high, "0.0025");
    assert_eq!(message.kline.low, "0.0015");
    assert_eq!(message.kline.volume, "1000");
    assert_eq!(message.kline.number_of_trades, 100);
    assert!(!message.kline.is_final_bar);
    assert_eq!(message.kline.quote_volume, "1.0000");
    assert_eq!(message.kline.active_buy_volume, "500");
    assert_eq!(message.kline.active_volume_buy_quote, "0.500");
    assert_eq!(message.kline.ignore_me, "123456");
    assert!(CandelStickMessage::from_json(&json(r#"{"e":"kline","E":1,"s":"x","k":{}}"#)).is_none());
}

#[test]
fn test_decode_primitives() {
    assert_eq!(u64::from_json(&json("18446744073709551615")), Some(u64::MAX));
    assert_eq!(u64::from_json(&json("18446744073709551616")), None);
    assert_eq!(u64::from_json(&json("-1")), None);
    assert_eq!(i64::from_json(&json("-9223372036854775808")), Some(i64::MIN));
    assert_eq!(i64::from_json(&json("9223372036854775808")), None);
    assert_eq!(u32::from_json(&json("4294967295")), Some(u32::MAX));
    assert_eq!(u32::from_json(&json("4294967296")), None);
    assert_eq!(i32::from_json(&json("-2147483648")), Some(i32::MIN));
    assert_eq!(i32::from_json(&json("2147483648")), None);
    assert_eq!(u16::from_json(&json("65535")), Some(u16::MAX));
    assert_eq!(u16::from_json(&json("0")), Some(0));
    assert_eq!(u16::from_json(&json("-0")), None);
    assert_eq!(u16::from_json(&json("1.0")), None);
    assert_eq!(bool::from_json(&json("true")), Some(true));
    assert_eq!(bool::from_json(&json("false")), Some(false));
    assert_eq!(bool::from_json(&json("0")), None);
    assert_eq!(String::from_json(&json(r#""a\"b""#)), Some("a\"b".to_owned()));
    assert_eq!(String::from_json(&json("null")), None);
}
