use binancex::api::client::response::SuccessOrError;
use binancex::api::client::{BinanceClient, Method};
use binancex::schemes::common::{Pong, ServerTime};
use binancex::schemes::error::Error;
use binancex::spot::market::endpoints::{
    API_V3_AGG_TRADES, API_V3_AVG_PRICE, API_V3_DEPTH, API_V3_EXCHANGE_INFO,
    API_V3_HISTORICAL_TRADES, API_V3_KLINES, API_V3_PING, API_V3_TICKER_24H,
    API_V3_TICKER_BOOK_TICKER, API_V3_TICKER_PRICE, API_V3_TIME, API_V3_TRADES, API_V3_UI_KLINES,
};
use binancex::spot::market::prelude::{DepthLimit, KLinesInterval};
use binancex::utils::vec_strings_to_string;
use binancex::BinanceSpot;
use http::{HeaderMap, HeaderValue, StatusCode};

const SERVER: &str = "http://127.0.0.1:5000";

fn url(path: &str, query: &str) -> String {
    format!("{}{}{}", SERVER, path, query)
}

fn weight_headers(weight: &'static str) -> HeaderMap {
    let mut headers = HeaderMap::new();
    headers.insert(
        "content-type",
        HeaderValue::from_static("application/json; charset=UTF-8"),
    );
    headers.insert("x-mbx-used-weight", HeaderValue::from_static(weight));
    headers.insert("x-mbx-used-weight-1m", HeaderValue::from_static(weight));
    headers
}

#[test]
fn test_spot_general_ping() {
    let client = BinanceSpot::with_host(SERVER.to_owned());
    let request = client.ping();
    assert_eq!(request.method, Method::Get);
    assert_eq!(request.url, url(API_V3_PING, ""));
    assert_eq!(request.api_key, None);

    let response =
        BinanceClient::resolve::<Pong, Error>(StatusCode::OK, &weight_headers("1"), b"{}").unwrap();
    assert_eq!(response.status, StatusCode::OK);
    assert_eq!(response.headers.x_mbx_used_weight, Some(1));
    assert_eq!(response.headers.x_mbx_used_weight_1m, Some(1));
}

#[test]
fn test_spot_general_get_server_time() {
    let client = BinanceSpot::with_host(SERVER.to_owned());
    let request = client.get_server_time();
    assert_eq!(request.method, Method::Get);
    assert_eq!(request.url, url(API_V3_TIME, ""));

    let body = format!("{{\"serverTime\":{}}}", 1668124800u64);
    let response = BinanceClient::resolve::<ServerTime, Error>(
        StatusCode::OK,
        &weight_headers("1"),
        body.as_bytes(),
    )
    .unwrap();
    assert_eq!(response.payload.server_time, 1668124800);
}

#[test]
fn test_spot_general_get_exchange_info() {
    let client = BinanceSpot::with_host(SERVER.to_owned());
    let request = client.get_exchange_info();
    assert_eq!(request.method, Method::Get);
    assert_eq!(request.url, url(API_V3_EXCHANGE_INFO, ""));
    let head = BinanceClient::read_head::<Error>(StatusCode::OK, &weight_headers("10")).unwrap();
    assert_eq!(head.headers.x_mbx_used_weight, Some(10));
    assert_eq!(head.headers.x_mbx_used_weight_1m, Some(10));
}

#[test]
fn test_spot_market_get_depth() {
    let client = BinanceSpot::with_host(SERVER.to_owned());
    let request = client.get_depth("BTCUSDT", DepthLimit::Limit(5));
    assert_eq!(request.method, Method::Get);
    assert_eq!(request.url, url(API_V3_DEPTH, "?symbol=BTCUSDT&limit=5"));
    assert_eq!(
        client.get_depth("BTCUSDT", DepthLimit::Limit5000).url,
        url(API_V3_DEPTH, "?symbol=BTCUSDT&limit=5000")
    );
}

#[test]
fn test_spot_market_get_recent_trades() {
    let client = BinanceSpot::with_host(SERVER.to_owned());
    let request = client.get_recent_trades("BTCUSDT", Some(2));
    assert_eq!(request.url, url(API_V3_TRADES, "?symbol=BTCUSDT&limit=2"));
    assert_eq!(
        client.get_recent_trades("BTCUSDT", None).url,
        url(API_V3_TRADES, "?symbol=BTCUSDT")
    );
}

#[test]
fn test_spot_market_get_historical_trades() {
    let client = BinanceSpot::signed_with_host(
        SERVER.to_owned(),
        "xxxxxxxxxxxxxxxxxxxxxxxxxxxxxxxxxxxxxxxxxxxxxxxxxxxxxxxxxxxxxxxx".to_owned(),
        "xxxxxxxxxxxxxxxxxxxxxxxxxxxxxxxxxxxxxxxxxxxxxxxxxxxxxxxxxxxxxxxx".to_owned(),
    );
    let request = client.get_historical_trades("BTCUSDT", None, Some(2));
    assert_eq!(request.method, Method::Get);
    assert_eq!(
        request.url,
        url(API_V3_HISTORICAL_TRADES, "?symbol=BTCUSDT&limit=2")
    );
    assert_eq!(
        request.api_key,
        Some("xxxxxxxxxxxxxxxxxxxxxxxxxxxxxxxxxxxxxxxxxxxxxxxxxxxxxxxxxxxxxxxx".to_owned())
    );
    assert_eq!(
        client.get_historical_trades("BTCUSDT", Some(28457), Some(2)).url,
        url(API_V3_HISTORICAL_TRADES, "?symbol=BTCUSDT&fromId=28457&limit=2")
    );
}

#[test]
fn test_spot_market_get_aggregate_trades() {
    let client = BinanceSpot::with_host(SERVER.to_owned());
    let request = client.get_aggregate_trades("BTCUSDT", None, None, None, Some(2));
    assert_eq!(request.url, url(API_V3_AGG_TRADES, "?symbol=BTCUSDT&limit=2"));
    assert_eq!(
        client
            .get_aggregate_trades("BTCUSDT", Some(1), Some(2), Some(3), Some(4))
            .url,
        url(
            API_V3_AGG_TRADES,
            "?symbol=BTCUSDT&fromId=1&startTime=2&endTime=3&limit=4"
        )
    );
}

#[test]
fn test_spot_market_get_klines() {
    let client = BinanceSpot::with_host(SERVER.to_owned());
    let request = client.get_klines("BTCUSDT", KLinesInterval::Minute, None, None, Some(2));
    assert_eq!(
        request.url,
        url(API_V3_KLINES, "?symbol=BTCUSDT&interval=1m&limit=2")
    );
    assert_eq!(
        client
            .get_klines("BTCUSDT", KLinesInterval::Month, Some(10), Some(20), None)
            .url,
        url(
            API_V3_KLINES,
            "?symbol=BTCUSDT&interval=1M&startTime=10&endTime=20"
        )
    );
}

#[test]
fn test_spot_market_get_klines_ui() {
    let client = BinanceSpot::with_host(SERVER.to_owned());
    let request = client.get_klines_ui("BTCUSDT", KLinesInterval::Minute, None, None, Some(2));
    assert_eq!(
        request.url,
        url(API_V3_UI_KLINES, "?symbol=BTCUSDT&interval=1m&limit=2")
    );
}

#[test]
fn test_spot_market_get_average_price() {
    let client = BinanceSpot::with_host(SERVER.to_owned());
    let request = client.get_average_price("BTCUSDT");
    assert_eq!(request.url, url(API_V3_AVG_PRICE, "?symbol=BTCUSDT"));
}

#[test]
fn test_spot_market_get_24h_ticker_full() {
    let client = BinanceSpot::with_host(SERVER.to_owned());
    let request = client.get_24h_ticker_full("BTCUSDT");
    assert_eq!(
        request.url,
        url(API_V3_TICKER_24H, "?symbol=BTCUSDT&type=FULL")
    );
}

#[test]
fn test_spot_market_get_24h_ticker_mini() {
    let client = BinanceSpot::with_host(SERVER.to_owned());
    let request = client.get_24h_ticker_mini("BTCUSDT");
    assert_eq!(
        request.url,
        url(API_V3_TICKER_24H, "?symbol=BTCUSDT&type=MINI")
    );
}

#[test]
fn test_spot_market_get_24h_tickers_full() {
    let client = BinanceSpot::with_host(SERVER.to_owned());
    let symbols = vec!["BTCUSDT".to_owned(), "BNBBTC".to_owned()];
    let symbols_param = vec_strings_to_string(&symbols);
    assert_eq!(symbols_param, format!("[\"BTCUSDT\",\"BNBBTC\"]"));

    let request = client.get_24h_tickers_full(Some(&symbols_param));
    assert_eq!(
        request.url,
        url(
            API_V3_TICKER_24H,
            "?type=FULL&symbols=[\"BTCUSDT\",\"BNBBTC\"]"
        )
    );
    assert_eq!(
        client.get_24h_tickers_full(None).url,
        url(API_V3_TICKER_24H, "?type=FULL")
    );
}

#[test]
fn test_spot_market_get_24h_tickers_mini() {
    let client = BinanceSpot::with_host(SERVER.to_owned());
    let symbols = vec!["BTCUSDT".to_owned(), "BNBBTC".to_owned()];
    let symbols_param = vec_strings_to_string(&symbols);

    let request = client.get_24h_tickers_mini(Some(&symbols_param));
    assert_eq!(
        request.url,
        url(
            API_V3_TICKER_24H,
            "?type=MINI&symbols=[\"BTCUSDT\",\"BNBBTC\"]"
        )
    );
    assert_eq!(
        client.get_24h_tickers_mini(None).url,
        url(API_V3_TICKER_24H, "?type=MINI")
    );
}

#[test]
fn test_spot_market_get_latest_price() {
    let client = BinanceSpot::with_host(SERVER.to_owned());
    let request = client.get_latest_price("BTCUSDT");
    assert_eq!(request.url, url(API_V3_TICKER_PRICE, "?symbol=BTCUSDT"));
}

#[test]
fn test_spot_market_get_latest_prices() {
    let client = BinanceSpot::with_host(SERVER.to_owned());
    let symbols = vec!["BTCUSDT".to_owned(), "BNBBTC".to_owned()];
    let symbols_param = vec_strings_to_string(&symbols);

    let request = client.get_latest_prices(Some(&symbols_param));
    assert_eq!(
        request.url,
        url(API_V3_TICKER_PRICE, "?symbols=[\"BTCUSDT\",\"BNBBTC\"]")
    );
    assert_eq!(
        client.get_latest_prices(None).url,
        url(API_V3_TICKER_PRICE, "")
    );
}

#[test]
fn test_spot_market_get_book_ticker() {
    let client = BinanceSpot::with_host(SERVER.to_owned());
    let request = client.get_book_ticker("BTCUSDT");
    assert_eq!(
        request.url,
        url(API_V3_TICKER_BOOK_TICKER, "?symbol=BTCUSDT")
    );
}

#[test]
fn test_spot_market_get_book_tickers() {
    let client = BinanceSpot::with_host(SERVER.to_owned());
    let symbols = vec!["BTCUSDT".to_owned(), "BNBBTC".to_owned()];
    let symbols_param = vec_strings_to_string(&symbols);
    let request = client.get_book_tickers(Some(&symbols_param));
    assert_eq!(
        request.url,
        url(
            API_V3_TICKER_BOOK_TICKER,
            "?symbols=[\"BTCUSDT\",\"BNBBTC\"]"
        )
    );
    assert_eq!(
        client.get_book_tickers(None).url,
        url(API_V3_TICKER_BOOK_TICKER, "")
    );
}

#[test]
fn test_spot_remote_error_for_a_market_request() {
    let body = br#"{"code":-1121,"msg":"Invalid symbol."}"#;
    match binancex::api::client::json::from_slice::<ServerTime, Error>(body).unwrap() {
        SuccessOrError::Error(e) => assert_eq!(e.code, -1121),
        SuccessOrError::Success(_) => panic!("an error object"),
    }
}
