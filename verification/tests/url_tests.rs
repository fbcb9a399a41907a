use binancex::api::client::hmac::{gen_signature, SecretKey};
use binancex::api::client::number::Decimal;
use binancex::api::client::query_string::QuerySerializationError;
use binancex::api::client::url::Url;

const HOST: &str = "https://api.binance.com";

#[test]
fn test_url_without_params_has_no_query() {
    let url = Url::with_capacity(HOST, "/api/v3/ping", 64);
    assert_eq!(url.as_str(), "https://api.binance.com/api/v3/ping");
    assert_eq!(url.get_query(), None);
    assert_eq!(url.len(), 35);
}

#[test]
fn test_url_first_param_after_question_mark() {
    let mut url = Url::with_capacity(HOST, "/api/v3/depth", 64);
    url.add_param_str("symbol", "BTCUSDT");
    assert_eq!(url.as_str(), "https://api.binance.com/api/v3/depth?symbol=BTCUSDT");
    assert_eq!(url.get_query(), Some("symbol=BTCUSDT"));
}

#[test]
fn test_url_params_in_call_order() {
    let mut url = Url::with_capacity(HOST, "/p", 0);
    url.add_param_str("b", "2");
    url.add_param_str("a", "1");
    url.add_param_str("b", "3");
    url.add_param_integer("n", 7);
    assert_eq!(url.get_query(), Some("b=2&a=1&b=3&n=7"));
    assert_eq!(url.as_str(), "https://api.binance.com/p?b=2&a=1&b=3&n=7");
    assert_eq!(url.as_str().matches('?').count(), 1);
    assert_eq!(url.as_str().matches('&').count(), 3);
}

#[test]
fn test_url_string_values_are_taken_verbatim() {
    let mut url = Url::with_capacity(HOST, "/p", 0);
    url.add_param_str("symbols", "[\"BTCUSDT\",\"BNBBTC\"]");
    url.add_param_str("note", "a b&c=d");
    assert_eq!(
        url.get_query(),
        Some("symbols=[\"BTCUSDT\",\"BNBBTC\"]&note=a b&c=d")
    );
}

#[test]
fn test_url_non_ascii_host_keeps_query_offset() {
    let mut url = Url::with_capacity("https://börse.example", "/pfad/ü", 8);
    url.add_param_str("symbol", "ÄB");
    url.add_param_integer("limit", 5);
    assert_eq!(url.get_query(), Some("symbol=ÄB&limit=5"));
    assert_eq!(url.as_str(), "https://börse.example/pfad/ü?symbol=ÄB&limit=5");
    assert_eq!(url.len(), url.as_str().len());
}

#[test]
fn test_url_integer_params() {
    let mut url = Url::with_capacity("", "", 0);
    url.add_param_integer("zero", 0);
    url.add_param_integer("neg", -42);
    url.add_param_integer("u64max", u64::MAX as i128);
    url.add_param_integer("i64min", i64::MIN as i128);
    url.add_param_integer("ten", 10);
    url.add_param_integer("big", 1_000_000_007);
    assert_eq!(
        url.as_str(),
        "?zero=0&neg=-42&u64max=18446744073709551615&i64min=-9223372036854775808&ten=10&big=1000000007"
    );
}

#[test]
fn test_url_decimal_params() {
    let mut url = Url::with_capacity("", "", 0);
    url.add_param_decimal("price", Decimal::new(3141, 3).unwrap());
    url.add_param_decimal("qty", Decimal::new(-5, 1).unwrap());
    url.add_param_decimal("small", Decimal::new(1, 8).unwrap());
    url.add_param_decimal("whole", Decimal::new(250, 0).unwrap());
    url.add_param_decimal("trailing", Decimal::new(1500, 3).unwrap());
    assert_eq!(
        url.as_str(),
        "?price=3.141&qty=-0.5&small=0.00000001&whole=250&trailing=1.500"
    );
}

#[test]
fn test_decimal_bounds() {
    assert!(Decimal::new(0, 28).is_some());
    assert!(Decimal::new(0, 29).is_none());
    let max: i128 = 0xFFFF_FFFF_FFFF_FFFF_FFFF_FFFF;
    assert!(Decimal::new(max, 0).is_some());
    assert!(Decimal::new(-max, 0).is_some());
    assert!(Decimal::new(max + 1, 0).is_none());
    assert!(Decimal::new(-max - 1, 0).is_none());
    let d = Decimal::new(-12345678, 7).unwrap();
    assert_eq!(d.mantissa(), -12345678);
    assert_eq!(d.scale(), 7);
    assert_eq!(d.to_text(), "-1.2345678");
    assert_eq!(Decimal::new(max, 28).unwrap().to_text(), "7.9228162514264337593543950335");
}

#[test]
fn test_url_add_params_raw() {
    let mut url = Url::with_capacity(HOST, "/p", 0);
    url.add_params("a=1&b=2");
    url.add_params("c=3");
    assert_eq!(url.get_query(), Some("a=1&b=2&c=3"));
}

#[test]
fn test_url_add_params_from_data() {
    let mut url = Url::with_capacity(HOST, "/p", 0);
    url.add_param_str("x", "y");
    let r = url.add_params_from_data(Ok("symbol=BTCUSDT&side=BUY".to_owned()));
    assert!(r.is_ok());
    assert_eq!(url.get_query(), Some("x=y&symbol=BTCUSDT&side=BUY"));

    let mut url = Url::with_capacity(HOST, "/p", 0);
    let r = url.add_params_from_data(Err(QuerySerializationError::Encoding(
        "unsupported value".to_owned(),
    )));
    match r {
        Err(QuerySerializationError::Encoding(message)) => {
            assert_eq!(message, "unsupported value")
        }
        _ => panic!("the error of the encoder is handed on"),
    }
    assert_eq!(url.as_str(), "https://api.binance.com/p?");
}

#[test]
fn test_url_recv_window_zero_is_left_out() {
    let mut url = Url::with_capacity(HOST, "/p", 0);
    url.add_recv_window(0);
    assert_eq!(url.get_query(), None);
    url.add_recv_window(6000);
    assert_eq!(url.get_query(), Some("recvWindow=6000"));
    url.add_recv_window(5000);
    assert_eq!(url.get_query(), Some("recvWindow=6000&recvWindow=5000"));
}

#[test]
fn test_url_timestamp() {
    let mut url = Url::with_capacity(HOST, "/p", 0);
    url.add_timestamp_at(1499827319559);
    assert_eq!(url.get_query(), Some("timestamp=1499827319559"));

    let mut url = Url::with_capacity(HOST, "/p", 0);
    url.add_param_str("a", "b");
    url.add_timestamp();
    let query = url.get_query().unwrap().to_owned();
    let value = query.strip_prefix("a=b&timestamp=").unwrap();
    let millis: i64 = value.parse().unwrap();
    assert!(millis > 1_600_000_000_000);
}

#[test]
fn test_url_add_signature_is_appended_with_ampersand() {
    let mut url = Url::with_capacity(HOST, "/p", 0);
    url.add_param_str("a", "b");
    url.add_signature("abcdef");
    assert_eq!(url.get_query(), Some("a=b&signature=abcdef"));

    let mut url = Url::with_capacity(HOST, "/p", 0);
    url.add_signature("abcdef");
    assert_eq!(url.as_str(), "https://api.binance.com/p&signature=abcdef");
    assert_eq!(url.get_query(), None);
}

#[test]
fn test_url_gen_and_add_signature_covers_the_query_only() {
    let key = SecretKey::new(
        b"NhqPtmdSJYdKjVHjA7PZj4Mge3R5YNiP1e3UZjInClVN65XAbvqqM6A7H5fATj0j".to_vec(),
    );
    let query = "symbol=LTCBTC&side=BUY&type=LIMIT&timeInForce=GTC&quantity=1&price=0.1&recvWindow=5000&timestamp=1499827319559";
    let mut url = Url::with_capacity(HOST, "/api/v3/order", 256);
    url.add_params(query);
    url.gen_and_add_signature(&key);
    let expected = "c8db56825ae71d6d79447849e617115f4a920fa2acdcab2b053c4b2838bd6b71";
    assert_eq!(
        url.as_str(),
        format!("https://api.binance.com/api/v3/order?{}&signature={}", query, expected)
    );

    let mut other = Url::with_capacity("https://testnet.binance.vision", "/another/path", 256);
    other.add_params(query);
    other.gen_and_add_signature(&key);
    assert_eq!(
        other.get_query().unwrap(),
        format!("{}&signature={}", query, expected)
    );
    assert_eq!(gen_signature(query.as_bytes(), &key), expected);
}

#[test]
fn test_url_capacity_and_into_string() {
    let mut url = Url::with_capacity(HOST, "/p", 128);
    assert!(url.capacity() >= 128);
    url.add_param_str("a", "b");
    assert!(url.capacity() >= url.len());
    assert_eq!(url.len(), 29);
    assert_eq!(url.into_string(), "https://api.binance.com/p?a=b".to_owned());
}
