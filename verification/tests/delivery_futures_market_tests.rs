use binancex::api::client::{BinanceClient, Method};
use binancex::delivery_futures::market::endpoints::{
    DAPI_V1_DEPTH, DAPI_V1_EXCHANGE_INFO, DAPI_V1_PING, DAPI_V1_TIME,
};
use binancex::delivery_futures::market::prelude::DepthLimit;
use binancex::perpetual_futures::market::endpoints::{
    FAPI_V1_DEPTH, FAPI_V1_EXCHANGE_INFO, FAPI_V1_PING, FAPI_V1_TIME,
};
use binancex::schemes::common::{Pong, ServerTime};
use binancex::schemes::error::Error;
use binancex::{BinanceDeliveryFutures, BinancePerpFutures};
use http::{HeaderMap, HeaderValue, StatusCode};

const SERVER: &str = "http://127.0.0.1:5000";

fn weight_headers(weight: &'static str) -> HeaderMap {
    let mut headers = HeaderMap::new();
    headers.insert(
        "content-type",
        HeaderValue::from_static("application/json; charset=UTF-8"),
    );
    headers.insert("x-mbx-used-weight", HeaderValue::from_static(weight));
    headers.insert("x-mbx-used-weight-1m", HeaderValue::from_static(weight));
    headers
}

#[test]
fn test_futures_dapi_general_ping() {
    let client = BinanceDeliveryFutures::with_host(SERVER.to_owned());
    let request = client.ping();
    assert_eq!(request.method, Method::Get);
    assert_eq!(request.url, format!("{}{}", SERVER, DAPI_V1_PING));
    assert_eq!(request.url, "http://127.0.0.1:5000/dapi/v1/ping");
    let response =
        BinanceClient::resolve::<Pong, Error>(StatusCode::OK, &weight_headers("1"), b"{}").unwrap();
    assert_eq!(response.headers.x_mbx_used_weight, Some(1));
}

#[test]
fn test_futures_dapi_general_get_server_time() {
    let client = BinanceDeliveryFutures::with_host(SERVER.to_owned());
    let request = client.get_server_time();
    assert_eq!(request.url, format!("{}{}", SERVER, DAPI_V1_TIME));
    let response = BinanceClient::resolve::<ServerTime, Error>(
        StatusCode::OK,
        &weight_headers("1"),
        br#"{"serverTime":1629000000}"#,
    )
    .unwrap();
    assert_eq!(response.payload.server_time, 1629000000);
}

#[test]
fn test_futures_dapi_general_get_exchange_info() {
    let client = BinanceDeliveryFutures::with_host(SERVER.to_owned());
    let request = client.get_exchange_info();
    assert_eq!(request.method, Method::Get);
    assert_eq!(request.url, format!("{}{}", SERVER, DAPI_V1_EXCHANGE_INFO));
}

#[test]
fn test_futures_dapi_market_get_depth() {
    let client = BinanceDeliveryFutures::with_host(SERVER.to_owned());
    let request = client.get_depth("BTCUSDT_PERP", DepthLimit::Limit5);
    assert_eq!(request.method, Method::Get);
    assert_eq!(
        request.url,
        format!("{}{}?symbol=BTCUSDT_PERP&limit=5", SERVER, DAPI_V1_DEPTH)
    );
    assert_eq!(request.api_key, None);
}

#[test]
fn test_futures_fapi_requests() {
    let client = BinancePerpFutures::with_host(SERVER.to_owned());
    assert_eq!(client.ping().url, format!("{}{}", SERVER, FAPI_V1_PING));
    assert_eq!(client.ping().url, "http://127.0.0.1:5000/fapi/v1/ping");
    assert_eq!(client.get_server_time().url, format!("{}{}", SERVER, FAPI_V1_TIME));
    assert_eq!(
        client.get_exchange_info().url,
        format!("{}{}", SERVER, FAPI_V1_EXCHANGE_INFO)
    );
    assert_eq!(
        client.get_depth("BTCUSDT", DepthLimit::Limit1000).url,
        format!("{}{}?symbol=BTCUSDT&limit=1000", SERVER, FAPI_V1_DEPTH)
    );
}

#[test]
fn test_market_hosts() {
    assert_eq!(
        BinanceDeliveryFutures::new().ping().url,
        "https://dapi.binance.com/dapi/v1/ping"
    );
    assert_eq!(
        BinancePerpFutures::new().ping().url,
        "https://fapi.binance.com/fapi/v1/ping"
    );
    assert_eq!(
        BinancePerpFutures::testnet("k".to_owned(), "s".to_owned())
            .ping()
            .url,
        "https://testnet.binancefuture.com/fapi/v1/ping"
    );
    assert_eq!(
        binancex::BinanceSpot::new().ping().url,
        "https://api.binance.com/api/v3/ping"
    );
    assert_eq!(
        binancex::BinanceSpot::testnet("k".to_owned(), "s".to_owned())
            .ping()
            .url,
        "https://testnet.binance.vision/api/v3/ping"
    );
}
