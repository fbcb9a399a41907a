use binancex::api::client::hmac::{gen_signature, SecretKey};
use binancex::api::client::query_string::QuerySerializationError;
use binancex::api::client::{Method, Request};
use binancex::spot::trade::endpoints::{
    API_V3_ACCOUNT, API_V3_ALL_ORDERS, API_V3_ALL_ORDER_LIST, API_V3_MY_TRADES,
    API_V3_OPEN_ORDERS, API_V3_OPEN_ORDER_LIST, API_V3_ORDER, API_V3_ORDER_CANCEL_REPLACE,
    API_V3_ORDER_LIST, API_V3_ORDER_OCO, API_V3_ORDER_TEST, API_V3_RATE_LIMIT_ORDER,
};
use binancex::spot::trade::prelude::OrderIdOrClientOrderId;
use binancex::BinanceSpot;

const SERVER: &str = "http://127.0.0.1:5000";
const API_KEY: &str = "vmPUZE6mv9SD5VNHk4HlWFsOr6aKE2zvsw0MuIgwCIPy6utIco14y7Ju91duEh8A";
const SECRET: &str = "NhqPtmdSJYdKjVHjA7PZj4Mge3R5YNiP1e3UZjInClVN65XAbvqqM6A7H5fATj0j";

fn client() -> BinanceSpot {
    BinanceSpot::signed_with_host(SERVER.to_owned(), API_KEY.to_owned(), SECRET.to_owned())
}

/// Checks what every signed request has in common and gives back the
/// parameters of the caller: what stands before `timestamp`.
fn check_signed(request: &Request, method: Method, path: &str) -> String {
    assert_eq!(request.method, method);
    assert_eq!(request.api_key, Some(API_KEY.to_owned()));
    let rest = request
        .url
        .strip_prefix(&format!("{}{}?", SERVER, path))
        .unwrap();
    let (covered, sig) = rest.rsplit_once("&signature=").unwrap();
    assert_eq!(
        sig,
        gen_signature(covered.as_bytes(), &SecretKey::new(SECRET.as_bytes().to_vec()))
    );
    assert!(!covered.contains("recvWindow"));
    let (params, timestamp) = match covered.rsplit_once("&timestamp=") {
        Some((params, timestamp)) => (params.to_owned(), timestamp),
        None => (String::new(), covered.strip_prefix("timestamp=").unwrap()),
    };
    assert!(timestamp.parse::<i64>().unwrap() > 1_600_000_000_000);
    params
}

#[test]
fn test_spot_trade_new_order() {
    let encoded = "symbol=LTCBTC&side=BUY&type=LIMIT&timeInForce=GTC&quantity=1&price=0.1";
    let request = client().new_order(Ok(encoded.to_owned())).unwrap();
    assert_eq!(check_signed(&request, Method::Post, API_V3_ORDER), encoded);
    let request = client().test_new_order(Ok(encoded.to_owned())).unwrap();
    assert_eq!(check_signed(&request, Method::Post, API_V3_ORDER_TEST), encoded);
}

#[test]
fn test_spot_trade_encoding_error_sends_nothing() {
    let failed = || Err(QuerySerializationError::Encoding("unsupported".to_owned()));
    assert!(matches!(
        client().new_order(failed()),
        Err(QuerySerializationError::Encoding(m)) if m == "unsupported"
    ));
    assert!(matches!(
        client().test_new_order(failed()),
        Err(QuerySerializationError::Encoding(_))
    ));
    assert!(matches!(
        client().cancel_order(failed()),
        Err(QuerySerializationError::Encoding(_))
    ));
    assert!(matches!(
        client().cancel_replace_order(failed()),
        Err(QuerySerializationError::Encoding(_))
    ));
    assert!(matches!(
        client().new_oco_order(failed()),
        Err(QuerySerializationError::Encoding(_))
    ));
    assert!(matches!(
        client().get_account_trades(failed()),
        Err(QuerySerializationError::Encoding(_))
    ));
}

#[test]
fn test_spot_trade_encoded_requests() {
    let request = client()
        .cancel_order(Ok("symbol=LTCBTC&orderId=28".to_owned()))
        .unwrap();
    assert_eq!(
        check_signed(&request, Method::Delete, API_V3_ORDER),
        "symbol=LTCBTC&orderId=28"
    );
    let request = client()
        .cancel_replace_order(Ok("symbol=LTCBTC&cancelReplaceMode=STOP_ON_FAILURE".to_owned()))
        .unwrap();
    assert_eq!(
        check_signed(&request, Method::Post, API_V3_ORDER_CANCEL_REPLACE),
        "symbol=LTCBTC&cancelReplaceMode=STOP_ON_FAILURE"
    );
    let request = client()
        .new_oco_order(Ok("symbol=LTCBTC&side=SELL".to_owned()))
        .unwrap();
    assert_eq!(
        check_signed(&request, Method::Post, API_V3_ORDER_OCO),
        "symbol=LTCBTC&side=SELL"
    );
    let request = client()
        .get_account_trades(Ok("symbol=LTCBTC&limit=500".to_owned()))
        .unwrap();
    assert_eq!(
        check_signed(&request, Method::Get, API_V3_MY_TRADES),
        "symbol=LTCBTC&limit=500"
    );
}

#[test]
fn test_spot_trade_cancel_all_orders() {
    let request = client().cancel_all_orders("BTCUSDT").unwrap();
    assert_eq!(
        check_signed(&request, Method::Delete, API_V3_OPEN_ORDERS),
        "symbol=BTCUSDT"
    );
}

#[test]
fn test_spot_trade_get_order_info() {
    let request = client()
        .get_order_info("BTCUSDT", Some(42), Some("abc".to_owned()))
        .unwrap();
    assert_eq!(
        check_signed(&request, Method::Get, API_V3_ORDER),
        "symbol=BTCUSDT&orderId=42&origClientOrderId=abc"
    );
    let request = client().get_order_info("BTCUSDT", None, None).unwrap();
    assert_eq!(check_signed(&request, Method::Get, API_V3_ORDER), "symbol=BTCUSDT");
}

#[test]
fn test_spot_trade_open_orders() {
    let request = client().get_open_orders("BTCUSDT").unwrap();
    assert_eq!(
        check_signed(&request, Method::Get, API_V3_OPEN_ORDERS),
        "symbol=BTCUSDT"
    );
    let request = client().get_all_open_orders().unwrap();
    assert_eq!(check_signed(&request, Method::Get, API_V3_OPEN_ORDERS), "");
}

#[test]
fn test_spot_trade_oco_orders() {
    let request = client()
        .cancel_oco_order("BTCUSDT", Some(7), Some("list".to_owned()), Some("new".to_owned()))
        .unwrap();
    assert_eq!(
        check_signed(&request, Method::Delete, API_V3_ORDER_LIST),
        "symbol=BTCUSDT&orderListId=7&listClientOrderId=list&newClientOrderId=new"
    );
    let request = client()
        .get_oco_order(&OrderIdOrClientOrderId::OrderListId(27))
        .unwrap();
    assert_eq!(
        check_signed(&request, Method::Get, API_V3_ORDER_LIST),
        "orderListId=27"
    );
    let request = client()
        .get_oco_order(&OrderIdOrClientOrderId::OrigClientOrderId("h2USkA5YQpaXHPIrkd96xE".to_owned()))
        .unwrap();
    assert_eq!(
        check_signed(&request, Method::Get, API_V3_ORDER_LIST),
        "origClientOrderId=h2USkA5YQpaXHPIrkd96xE"
    );
    let request = client()
        .get_all_oco_orders(Some(1), Some(2), Some(3), Some(4))
        .unwrap();
    assert_eq!(
        check_signed(&request, Method::Get, API_V3_ALL_ORDER_LIST),
        "fromId=1&startTime=2&endTime=3&limit=4"
    );
    let request = client().get_all_oco_orders(None, None, None, None).unwrap();
    assert_eq!(check_signed(&request, Method::Get, API_V3_ALL_ORDER_LIST), "");
    let request = client().get_all_open_oco_orders().unwrap();
    assert_eq!(check_signed(&request, Method::Get, API_V3_OPEN_ORDER_LIST), "");
}

#[test]
fn test_spot_trade_account() {
    let request = client()
        .get_all_account_orders("BTCUSDT", Some(1), None, Some(3), Some(1000))
        .unwrap();
    assert_eq!(
        check_signed(&request, Method::Get, API_V3_ALL_ORDERS),
        "symbol=BTCUSDT&orderId=1&endTime=3&limit=1000"
    );
    let request = client().get_account_info().unwrap();
    assert_eq!(check_signed(&request, Method::Get, API_V3_ACCOUNT), "");
}

#[test]
fn test_spot_trade_order_rate_limit_is_anonymous() {
    let request = client().get_order_rate_limit();
    assert_eq!(request.method, Method::Get);
    assert_eq!(request.url, format!("{}{}", SERVER, API_V3_RATE_LIMIT_ORDER));
    assert_eq!(request.api_key, None);
}
