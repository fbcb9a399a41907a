use binancex::api::client::{HttpSettings, Method};
use binancex::client::{Binancex, BinancexBuilder, API1_HOST};
use binancex::error::BinancexError;
use binancex::schemes::common::ServerTime;
use binancex::schemes::general::SymbolStatus;
use binancex::schemes::market::DepthLimit;

#[test]
fn test_first_client_defaults() {
    let client = Binancex::new();
    assert_eq!(API1_HOST, "https://www.binance.com");
    assert_eq!(
        client.settings(),
        HttpSettings {
            connect_timeout_ms: 5000,
            request_timeout_ms: 5000,
            tcp_nodelay: false,
            local_addr: None,
            json_content_type: false,
        }
    );
    let built = Binancex::builder()
        .connect_timeout(100)
        .request_timeout(200)
        .tcp_nodelay(true)
        .build();
    assert_eq!(
        built.settings(),
        HttpSettings {
            connect_timeout_ms: 100,
            request_timeout_ms: 200,
            tcp_nodelay: true,
            local_addr: None,
            json_content_type: false,
        }
    );
    assert_eq!(BinancexBuilder::new(), Binancex::builder());
}

#[test]
fn test_first_client_requests() {
    let client = Binancex::new();
    let request = client.get_exchange_info();
    assert_eq!(request.method, Method::Get);
    assert_eq!(request.url, "https://www.binance.com/api/v3/exchangeInfo");
    assert_eq!(request.api_key, None);

    let request = client.get_depth("BTCUSDT", DepthLimit::Limit100);
    assert_eq!(request.method, Method::Get);
    assert_eq!(
        request.url,
        "https://www.binance.com/api/v3/depth?symbol=BTCUSDT&limit=100"
    );
    assert_eq!(
        client.get_depth("ETHBTC", DepthLimit::Limit5000).url,
        "https://www.binance.com/api/v3/depth?symbol=ETHBTC&limit=5000"
    );
}

#[test]
fn test_first_client_resolve() {
    let time = Binancex::resolve::<ServerTime>(br#"{"serverTime":1499827319559}"#).unwrap();
    assert_eq!(time.server_time, 1499827319559);
    match Binancex::resolve::<ServerTime>(br#"{"code":-1121,"msg":"Invalid symbol."}"#) {
        Err(BinancexError::Binance(e)) => {
            assert_eq!(e.code, -1121);
            assert_eq!(e.msg, "Invalid symbol.");
        }
        _ => panic!("the error of the exchange"),
    }
    match Binancex::resolve::<ServerTime>(b"{}") {
        Err(BinancexError::Parse(e)) => assert_eq!(
            e.message,
            "data did not match any variant of untagged enum BinanceResponse"
        ),
        _ => panic!("a parse error"),
    }
    assert!(matches!(
        Binancex::resolve::<ServerTime>(b"{"),
        Err(BinancexError::Parse(_))
    ));
    assert_eq!(
        Binancex::resolve::<SymbolStatus>(br#""TRADING""#).unwrap(),
        SymbolStatus::Trading
    );
}
