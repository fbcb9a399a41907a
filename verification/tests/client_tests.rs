use binancex::api::client::hmac::gen_signature;
use binancex::api::client::hmac::SecretKey;
use binancex::api::client::query_string::QuerySerializationError;
use binancex::api::client::url::Url;
use binancex::api::client::{
    http_client_default, BinanceClient, BinanceClientBuilder, HttpSettings, LocalAddress, Method,
    HTTP_CONNECTION_TIMEOUT_MS_DEFAULT, HTTP_REQUEST_TIMEOUT_MS_DEFAULT, RECV_WINDOW_MS_DEFAULT,
    SIGNED_PARAMS_LEN,
};

const HOST: &str = "https://api.binance.com";

fn signed_client(recv_window: Option<u16>) -> BinanceClient {
    let mut builder = BinanceClientBuilder::new(HOST.to_owned());
    builder.api_key = Some("my-api-key".to_owned());
    builder.secret_key = Some("secret".to_owned());
    builder.recv_window = recv_window;
    builder.build()
}

#[test]
fn test_client_defaults() {
    assert_eq!(HTTP_CONNECTION_TIMEOUT_MS_DEFAULT, 5000);
    assert_eq!(HTTP_REQUEST_TIMEOUT_MS_DEFAULT, 5000);
    assert_eq!(RECV_WINDOW_MS_DEFAULT, 5000);
    assert_eq!(SIGNED_PARAMS_LEN, 17 + 30 + 64 + 11);
    let client = BinanceClient::new(HOST.to_owned());
    assert_eq!(client.host(), HOST);
    assert_eq!(client.api_key(), "");
    assert_eq!(client.recv_window(), 5000);
    assert_eq!(
        client.http_settings(),
        HttpSettings {
            connect_timeout_ms: 5000,
            request_timeout_ms: 5000,
            tcp_nodelay: true,
            local_addr: None,
            json_content_type: true,
        }
    );
    assert_eq!(client.http_settings(), http_client_default());
}

#[test]
fn test_client_builder_takes_what_is_set() {
    let mut builder = BinanceClient::builder(HOST.to_owned());
    builder.api_key = Some("k".to_owned());
    builder.secret_key = Some("s".to_owned());
    builder.recv_window = Some(10_000);
    builder.http_connect_timeout_ms = Some(250);
    builder.http_request_timeout_ms = Some(750);
    builder.tcp_nodelay = Some(false);
    builder.local_addr = Some(LocalAddress::V4(0x7f00_0001));
    let client = builder.build();
    assert_eq!(client.host(), HOST);
    assert_eq!(client.api_key(), "k");
    assert_eq!(client.recv_window(), 10_000);
    assert_eq!(
        client.http_settings(),
        HttpSettings {
            connect_timeout_ms: 250,
            request_timeout_ms: 750,
            tcp_nodelay: false,
            local_addr: Some(LocalAddress::V4(0x7f00_0001)),
            json_content_type: false,
        }
    );
}

#[test]
fn test_client_builder_defaults() {
    let client = BinanceClientBuilder::new(HOST.to_owned()).build();
    assert_eq!(client.api_key(), "");
    assert_eq!(client.recv_window(), 5000);
    assert_eq!(
        client.http_settings(),
        HttpSettings {
            connect_timeout_ms: 5000,
            request_timeout_ms: 5000,
            tcp_nodelay: true,
            local_addr: None,
            json_content_type: false,
        }
    );
}

#[test]
fn test_anonymous_get() {
    let client = BinanceClient::new(HOST.to_owned());
    let req = client.get("/api/v3/ping");
    assert_eq!(req.method, Method::Get);
    assert_eq!(req.url, "https://api.binance.com/api/v3/ping");
    assert_eq!(req.api_key, None);
}

#[test]
fn test_get_with_query_is_anonymous() {
    let client = BinanceClient::signed(HOST.to_owned(), "key".to_owned(), "secret".to_owned());
    let req = client.get_with_query("/api/v3/depth", 40, |mut url: Url| {
        url.add_param_str("symbol", "BTCUSDT");
        url.add_param_integer("limit", 5);
        url
    });
    assert_eq!(req.method, Method::Get);
    assert_eq!(req.url, "https://api.binance.com/api/v3/depth?symbol=BTCUSDT&limit=5");
    assert_eq!(req.api_key, None);
}

#[test]
fn test_get_with_query_api_key_carries_the_key_but_no_signature() {
    let client = BinanceClient::signed(HOST.to_owned(), "key".to_owned(), "secret".to_owned());
    let req = client.get_with_query_api_key("/api/v3/historicalTrades", 70, |mut url: Url| {
        url.add_param_str("symbol", "BTCUSDT");
        url
    });
    assert_eq!(req.method, Method::Get);
    assert_eq!(req.url, "https://api.binance.com/api/v3/historicalTrades?symbol=BTCUSDT");
    assert_eq!(req.api_key, Some("key".to_owned()));
    assert!(!req.url.contains("timestamp"));
    assert!(!req.url.contains("signature"));
}

#[test]
fn test_signing_with_default_recv_window_omits_it() {
    let client = signed_client(None);
    let mut url = Url::with_capacity(HOST, "/api/v3/order", 256);
    url.add_param_str("symbol", "BTCUSDT");
    let req = client
        .signed_request_at(Method::Get, url, 1700000000000)
        .unwrap();
    assert_eq!(
        req.url,
        "https://api.binance.com/api/v3/order?symbol=BTCUSDT&timestamp=1700000000000&signature=6244d11c958f45ac56733152cb3cb1831d23a2b3709b3a88b8b42a072aceb410"
    );
    assert!(!req.url.contains("recvWindow"));
    assert_eq!(req.api_key, Some("my-api-key".to_owned()));
    assert_eq!(req.method, Method::Get);

    let explicit_default = signed_client(Some(5000));
    let mut url = Url::with_capacity(HOST, "/api/v3/order", 256);
    url.add_param_str("symbol", "BTCUSDT");
    let same = explicit_default
        .signed_request_at(Method::Get, url, 1700000000000)
        .unwrap();
    assert_eq!(same.url, req.url);
}

#[test]
fn test_signing_with_other_recv_window_puts_it_before_timestamp() {
    let client = signed_client(Some(6000));
    let url = Url::with_capacity(HOST, "/api/v3/account", 256);
    let req = client
        .signed_request_at(Method::Post, url, 1700000000000)
        .unwrap();
    assert_eq!(
        req.url,
        "https://api.binance.com/api/v3/account?recvWindow=6000&timestamp=1700000000000&signature=218702eba433e7592578248325ab6f2c4885023d584340d26f2be8e4cde3f5b5"
    );
    assert_eq!(req.method, Method::Post);
}

#[test]
fn test_signing_with_zero_recv_window_includes_it() {
    let client = signed_client(Some(0));
    let mut url = Url::with_capacity(HOST, "/p", 256);
    url.add_param_str("symbol", "BTCUSDT");
    let req = client.signed_request_at(Method::Delete, url, 1).unwrap();
    assert_eq!(
        req.url,
        "https://api.binance.com/p?symbol=BTCUSDT&recvWindow=0&timestamp=1&signature=f34af520566d79072f9f488a565b490c8e0f926fde16a590877167bec7bd9b61"
    );
    assert_eq!(req.method, Method::Delete);
}

#[test]
fn test_signature_is_last_and_covers_all_before_it() {
    let client = signed_client(Some(1234));
    let mut url = Url::with_capacity(HOST, "/api/v3/order", 256);
    url.add_param_str("symbol", "LTCBTC");
    url.add_param_str("side", "BUY");
    client.add_signed_params_at(&mut url, 1499827319559);
    let query = url.get_query().unwrap();
    let (covered, sig) = query.rsplit_once("&signature=").unwrap();
    assert_eq!(
        covered,
        "symbol=LTCBTC&side=BUY&recvWindow=1234&timestamp=1499827319559"
    );
    assert_eq!(sig.len(), 64);
    assert_eq!(
        sig,
        gen_signature(covered.as_bytes(), &SecretKey::new(b"secret".to_vec()))
    );
}

#[test]
fn test_try_add_signed_params_at_matches_add_signed_params_at() {
    let client = signed_client(None);
    let mut a = Url::with_capacity(HOST, "/p", 0);
    let mut b = Url::with_capacity(HOST, "/p", 0);
    a.add_param_integer("orderId", 7);
    b.add_param_integer("orderId", 7);
    client.add_signed_params_at(&mut a, 99);
    assert!(client.try_add_signed_params_at(&mut b, 99).is_ok());
    assert_eq!(a.as_str(), b.as_str());
}

#[test]
fn test_add_signed_params_uses_the_current_time() {
    let client = signed_client(None);
    let mut url = Url::with_capacity(HOST, "/p", 0);
    assert!(client.add_signed_params(&mut url).is_ok());
    let query = url.get_query().unwrap();
    let (covered, sig) = query.rsplit_once("&signature=").unwrap();
    let millis: i64 = covered.strip_prefix("timestamp=").unwrap().parse().unwrap();
    assert!(millis > 1_600_000_000_000);
    assert_eq!(
        sig,
        gen_signature(covered.as_bytes(), &SecretKey::new(b"secret".to_vec()))
    );
}

#[test]
fn test_get_signed_without_params() {
    let client = signed_client(None);
    let req = client.get_signed("/api/v3/account").unwrap();
    assert_eq!(req.method, Method::Get);
    assert_eq!(req.api_key, Some("my-api-key".to_owned()));
    let rest = req
        .url
        .strip_prefix("https://api.binance.com/api/v3/account?timestamp=")
        .unwrap();
    let (millis, sig) = rest.split_once("&signature=").unwrap();
    assert!(millis.parse::<i64>().unwrap() > 1_600_000_000_000);
    assert_eq!(sig.len(), 64);
}

#[test]
fn test_signed_with_query_methods() {
    let client = signed_client(None);
    let get = client
        .get_signed_with_query("/p", 8, |mut url: Url| {
            url.add_param_str("a", "1");
            Ok(url)
        })
        .unwrap();
    let post = client
        .post_signed_with_query("/p", 8, |mut url: Url| {
            url.add_param_str("a", "1");
            Ok(url)
        })
        .unwrap();
    let delete = client
        .delete_signed_with_query("/p", 0, |mut url: Url| {
            url.add_param_str("a", "1");
            Ok(url)
        })
        .unwrap();
    assert_eq!(get.method, Method::Get);
    assert_eq!(post.method, Method::Post);
    assert_eq!(delete.method, Method::Delete);
    for req in [get, post, delete] {
        assert!(req.url.starts_with("https://api.binance.com/p?a=1&timestamp="));
        assert_eq!(req.api_key, Some("my-api-key".to_owned()));
        let (_, sig) = req.url.rsplit_once("&signature=").unwrap();
        assert_eq!(sig.len(), 64);
    }
}

#[test]
fn test_signed_with_query_hands_on_the_encoding_error() {
    let client = signed_client(None);
    let r = client.post_signed_with_query("/p", 8, |mut url: Url| {
        url.add_params_from_data(Err(QuerySerializationError::Encoding("bad".to_owned())))?;
        Ok(url)
    });
    match r {
        Err(QuerySerializationError::Encoding(message)) => assert_eq!(message, "bad"),
        _ => panic!("nothing is to be sent"),
    }
}
